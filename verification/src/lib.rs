//! The escrow ledger of an accountability challenge: how a challenge is
//! created, how stake is added to its pool, and how the pool is paid out.
//!
//! The operations work on plain snapshots of the accounts involved. Balances
//! are moved by a guarded transfer that either happens wholly or not at all.

pub mod engine;
pub mod error;
pub mod instruction;
pub mod laws;
pub mod ledger;
pub mod pubkey;
pub mod state;

pub use crate::engine::{distribute_reward, initialize_challenge, stake_tokens};
pub use crate::error::{CustomError, EngineError, LedgerError};
pub use crate::instruction::{AccountMeta, Instruction};
pub use crate::pubkey::Pubkey;
pub use crate::state::{
    AccountInfo, Challenge, ChallengeAccount, DistributeReward, InitializeChallenge, StakeTokens,
};
