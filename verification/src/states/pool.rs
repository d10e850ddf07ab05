//! What the program reads of the pool.

use crate::pubkey::Pubkey;
use vstd::prelude::*;

verus! {

/// The state of a constant-product pool as the pool's own program reports
/// it: who it is, how many shares exist, and what they are backed by.
#[derive(Clone, Copy, Debug, PartialEq, Eq)]
pub struct PoolState {
    /// The account that holds the pool's first asset.
    pub token_0_vault: Pubkey,
    /// The account that holds the pool's second asset.
    pub token_1_vault: Pubkey,
    /// The mint of the pool's shares.
    pub lp_mint: Pubkey,
    /// The number of shares in existence.
    pub lp_supply: u64,
    /// The reserve of the first asset that backs the shares.
    pub total_token_0_amount: u64,
    /// The reserve of the second asset that backs the shares.
    pub total_token_1_amount: u64,
}

} // verus!
