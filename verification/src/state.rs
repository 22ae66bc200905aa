use vstd::prelude::*;
use crate::pubkey::Pubkey;

verus! {

/// The record of one accountability challenge.
///
/// All four fields are written once, when the challenge is created. Stake
/// that comes in later is held in the balance of the account that carries the
/// record, not counted here: `total_stake` stays the amount declared at
/// creation.
#[derive(Clone, Debug, PartialEq, Eq)]
pub struct Challenge {
    /// The one identity that may pay the pool out.
    pub authority: Pubkey,
    /// A label for display and lookup.
    pub challenge_id: String,
    /// The stake declared when the challenge was created.
    pub total_stake: u64,
    /// Whether stake is accepted.
    pub is_active: bool,
}

/// An account as the ledger shows it: its address and the value it holds.
#[derive(Clone, Copy, Debug, PartialEq, Eq)]
pub struct AccountInfo {
    pub key: Pubkey,
    pub lamports: u64,
}

/// The account that carries a challenge record. Its balance is the pool.
#[derive(Clone, Debug, PartialEq, Eq)]
pub struct ChallengeAccount {
    pub key: Pubkey,
    pub lamports: u64,
    pub record: Challenge,
}

/// The accounts of a request to create a challenge.
#[derive(Clone, Debug, PartialEq, Eq)]
pub struct InitializeChallenge {
    /// The fresh account that is to carry the record.
    pub challenge: ChallengeAccount,
    /// The creator, who signed the request.
    pub authority: AccountInfo,
}

/// The accounts of a request to add stake to a challenge.
#[derive(Clone, Debug, PartialEq, Eq)]
pub struct StakeTokens {
    pub challenge: ChallengeAccount,
    /// The account that pays the stake, and whose holder signed the request.
    pub participant: AccountInfo,
}

/// The accounts of a request to pay out of a challenge's pool.
#[derive(Clone, Debug, PartialEq, Eq)]
pub struct DistributeReward {
    pub challenge: ChallengeAccount,
    /// The account that receives the payout.
    pub winner: AccountInfo,
    /// The identity that signed the request.
    pub authority: AccountInfo,
}

} // verus!
