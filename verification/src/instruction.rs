//! A call into another program, as plain values.

use crate::pubkey::Pubkey;
use vstd::prelude::*;

verus! {

/// One account that a call names, and what the call may do with it.
#[derive(Clone, Copy, Debug, PartialEq, Eq)]
pub struct AccountMeta {
    /// The address of the account.
    pub pubkey: Pubkey,
    /// Whether the account has to sign the call.
    pub is_signer: bool,
    /// Whether the call may change the account.
    pub is_writable: bool,
}

impl AccountMeta {
    /// An account that the call may change.
    pub fn new(pubkey: Pubkey, is_signer: bool) -> (meta: AccountMeta)
        ensures
            meta == (AccountMeta { pubkey, is_signer, is_writable: true }),
    {
        AccountMeta { pubkey, is_signer, is_writable: true }
    }

    /// An account that the call only reads.
    pub fn new_readonly(pubkey: Pubkey, is_signer: bool) -> (meta: AccountMeta)
        ensures
            meta == (AccountMeta { pubkey, is_signer, is_writable: false }),
    {
        AccountMeta { pubkey, is_signer, is_writable: false }
    }
}

/// A movement of tokens that the caller has to make: so many tokens of a
/// mint, from one token account to another, on the word of the authority
/// over the first.
#[derive(Clone, Copy, Debug, PartialEq, Eq)]
pub struct TokenTransfer {
    /// The token account that gives.
    pub from: Pubkey,
    /// The token account that takes.
    pub to: Pubkey,
    /// The authority over the account that gives.
    pub authority: Pubkey,
    /// The mint of the tokens.
    pub mint: Pubkey,
    /// The number of tokens.
    pub amount: u64,
}

/// A call into a program: which program, on which accounts, with what data.
#[derive(Debug, PartialEq, Eq)]
pub struct Instruction {
    /// The program that is called.
    pub program_id: Pubkey,
    /// The accounts handed to it, in the order the program expects.
    pub accounts: Vec<AccountMeta>,
    /// The bytes handed to it.
    pub data: Vec<u8>,
}

/// What an `Instruction` holds.
pub struct InstructionView {
    pub program_id: Pubkey,
    pub accounts: Seq<AccountMeta>,
    pub data: Seq<u8>,
}

impl View for Instruction {
    type V = InstructionView;

    open spec fn view(&self) -> InstructionView {
        InstructionView { program_id: self.program_id, accounts: self.accounts@, data: self.data@ }
    }
}

} // verus!
