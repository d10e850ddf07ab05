//! The ways in which an operation on a lock is refused.

use vstd::prelude::*;

verus! {

/// The reasons this program gives for refusing an operation.
#[derive(Clone, Copy, Debug, PartialEq, Eq, Structural)]
pub enum ErrorCode {
    NotApproved,
    InvalidOwner,
    EmptySupply,
    InvalidInput,
    IncorrectLpMint,
    ExceededSlippage,
    ZeroTradingTokens,
    NotSupportMint,
    InvalidVault,
    InitLpAmountTooLess,
    InvalidTimestamp,
    ClockUnavailable,
    Overflow,
    LockIsPermanent,
    LockAlreadyUnlocked,
    UnlockTimeNotReached,
    ZeroLpTokensToBurn,
    LockDurationTooLong,
    UnderflowError,
    ZeroLiquidity,
}

impl ErrorCode {
    /// The sentence that explains the error.
    pub open spec fn spec_message(&self) -> Seq<char> {
        match self {
            ErrorCode::NotApproved => "Not approved"@,
            ErrorCode::InvalidOwner => "Input account owner is not the program address"@,
            ErrorCode::EmptySupply => "Input token account is empty"@,
            ErrorCode::InvalidInput => "Invalid input token for swap"@,
            ErrorCode::IncorrectLpMint => "Address of the provided LP token mint is incorrect"@,
            ErrorCode::ExceededSlippage => "Exceeds desired slippage limit"@,
            ErrorCode::ZeroTradingTokens => "Given pool token amount results in zero trading tokens"@,
            ErrorCode::NotSupportMint => "Token-2022 mint extension is not supported"@,
            ErrorCode::InvalidVault => "Invalid vault account"@,
            ErrorCode::InitLpAmountTooLess => "Initial LP amount is too small (minimum 100 LP tokens required)"@,
            ErrorCode::InvalidTimestamp => "Invalid timestamp conversion"@,
            ErrorCode::ClockUnavailable => "Clock sysvar is unavailable"@,
            ErrorCode::Overflow => "Arithmetic overflow occurred"@,
            ErrorCode::LockIsPermanent => "This LP is locked permanently and cannot be unlocked"@,
            ErrorCode::LockAlreadyUnlocked => "This LP lock has already been unlocked"@,
            ErrorCode::UnlockTimeNotReached => "Unlock time has not yet been reached"@,
            ErrorCode::ZeroLpTokensToBurn => "Calculated LP tokens to burn is zero"@,
            ErrorCode::LockDurationTooLong => "The provided lock duration exceeds the maximum allowed limit"@,
            ErrorCode::UnderflowError => "Underflow occurred"@,
            ErrorCode::ZeroLiquidity => "Zero liquidity in the pool"@,
        }
    }

    /// The sentence that explains the error.
    pub fn message(&self) -> (text: &'static str)
        ensures
            text@ == self.spec_message(),
    {
        match self {
            ErrorCode::NotApproved => "Not approved",
            ErrorCode::InvalidOwner => "Input account owner is not the program address",
            ErrorCode::EmptySupply => "Input token account is empty",
            ErrorCode::InvalidInput => "Invalid input token for swap",
            ErrorCode::IncorrectLpMint => "Address of the provided LP token mint is incorrect",
            ErrorCode::ExceededSlippage => "Exceeds desired slippage limit",
            ErrorCode::ZeroTradingTokens => "Given pool token amount results in zero trading tokens",
            ErrorCode::NotSupportMint => "Token-2022 mint extension is not supported",
            ErrorCode::InvalidVault => "Invalid vault account",
            ErrorCode::InitLpAmountTooLess => "Initial LP amount is too small (minimum 100 LP tokens required)",
            ErrorCode::InvalidTimestamp => "Invalid timestamp conversion",
            ErrorCode::ClockUnavailable => "Clock sysvar is unavailable",
            ErrorCode::Overflow => "Arithmetic overflow occurred",
            ErrorCode::LockIsPermanent => "This LP is locked permanently and cannot be unlocked",
            ErrorCode::LockAlreadyUnlocked => "This LP lock has already been unlocked",
            ErrorCode::UnlockTimeNotReached => "Unlock time has not yet been reached",
            ErrorCode::ZeroLpTokensToBurn => "Calculated LP tokens to burn is zero",
            ErrorCode::LockDurationTooLong => "The provided lock duration exceeds the maximum allowed limit",
            ErrorCode::UnderflowError => "Underflow occurred",
            ErrorCode::ZeroLiquidity => "Zero liquidity in the pool",
        }
    }
}

/// Why an operation on a lock was refused. A refused operation changes
/// nothing.
#[derive(Clone, Copy, Debug, PartialEq, Eq, Structural)]
pub enum LockError {
    /// One of the program's own reasons.
    Code(ErrorCode),
    /// The accounts do not belong together: the lock is not the signer's, or
    /// not of the share mint that was presented.
    ConstraintRaw,
    /// Two values that have to be equal differ, and the program names no
    /// reason of its own: a reserve account that is not the pool's.
    RequireEqViolated,
    /// A value that has to be greater than another is not, and the program
    /// names no reason of its own: shares that stand for none of an asset.
    RequireGtViolated,
}

} // verus!
