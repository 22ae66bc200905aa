use vstd::prelude::*;

verus! {

/// Why the engine itself refuses an operation on a challenge.
#[derive(Clone, Copy, Debug, PartialEq, Eq, Structural)]
pub enum CustomError {
    /// Stake was offered to a challenge whose `is_active` flag is cleared.
    ChallengeInactive,
    /// A payout was requested by somebody other than the challenge's authority.
    Unauthorized,
}

/// Why the ledger refuses to move value between two balances.
#[derive(Clone, Copy, Debug, PartialEq, Eq, Structural)]
pub enum LedgerError {
    /// The balance to be debited holds less than the amount asked for.
    InsufficientFunds,
    /// The balance to be credited cannot hold the amount on top of what it has.
    ArithmeticOverflow,
}

/// Why an operation failed: the engine's own refusal, or the ledger's, handed
/// on as the ledger gave it.
#[derive(Clone, Copy, Debug, PartialEq, Eq, Structural)]
pub enum EngineError {
    /// The engine refused before any value was moved.
    Custom(CustomError),
    /// The ledger refused the move that the engine asked for.
    Ledger(LedgerError),
}

} // verus!
