use vstd::prelude::*;
use crate::error::{CustomError, EngineError};
use crate::instruction::{is_system_transfer, system_transfer, Instruction};
use crate::ledger::{transfer, transfer_refusal};
use crate::pubkey::Pubkey;
use crate::state::{
    AccountInfo, Challenge, ChallengeAccount, DistributeReward, InitializeChallenge, StakeTokens,
};

verus! {

/// The record that creation writes: owned by `authority`, labelled
/// `challenge_id`, declaring `stake_amount`, and open for stake.
pub open spec fn is_new_record(
    record: Challenge,
    authority: Pubkey,
    challenge_id: Seq<char>,
    stake_amount: u64,
) -> bool {
    &&& record.authority == authority
    &&& record.challenge_id@ == challenge_id
    &&& record.total_stake == stake_amount
    &&& record.is_active
}

/// Why a request to add `amount` of stake fails, if it does: a closed
/// challenge is refused by the engine before the ledger is asked; otherwise
/// the ledger's own refusal, unchanged.
pub open spec fn stake_refusal(accounts: StakeTokens, amount: u64) -> Option<EngineError> {
    if !accounts.challenge.record.is_active {
        Some(EngineError::Custom(CustomError::ChallengeInactive))
    } else {
        match transfer_refusal(accounts.participant.lamports, accounts.challenge.lamports, amount) {
            Some(e) => Some(EngineError::Ledger(e)),
            None => None,
        }
    }
}

/// The accounts of a stake request after it was handled: the amount has moved
/// from the participant into the pool if the request was accepted, and
/// nothing has changed if it was not.
pub open spec fn after_stake(accounts: StakeTokens, amount: u64) -> StakeTokens {
    if stake_refusal(accounts, amount) is None {
        StakeTokens {
            challenge: ChallengeAccount {
                lamports: (accounts.challenge.lamports + amount) as u64,
                ..accounts.challenge
            },
            participant: AccountInfo {
                lamports: (accounts.participant.lamports - amount) as u64,
                ..accounts.participant
            },
        }
    } else {
        accounts
    }
}

/// Why a request to pay `amount` out of the pool fails, if it does: a signer
/// who is not the challenge's authority is refused by the engine, whatever
/// the amount; otherwise the ledger's own refusal, unchanged.
pub open spec fn distribute_refusal(accounts: DistributeReward, amount: u64) -> Option<EngineError> {
    if accounts.authority.key != accounts.challenge.record.authority {
        Some(EngineError::Custom(CustomError::Unauthorized))
    } else {
        match transfer_refusal(accounts.challenge.lamports, accounts.winner.lamports, amount) {
            Some(e) => Some(EngineError::Ledger(e)),
            None => None,
        }
    }
}

/// The accounts of a payout request after it was handled: the amount has
/// moved from the pool to the winner if the request was accepted, and nothing
/// has changed if it was not.
pub open spec fn after_distribute(accounts: DistributeReward, amount: u64) -> DistributeReward {
    if distribute_refusal(accounts, amount) is None {
        DistributeReward {
            challenge: ChallengeAccount {
                lamports: (accounts.challenge.lamports - amount) as u64,
                ..accounts.challenge
            },
            winner: AccountInfo {
                lamports: (accounts.winner.lamports + amount) as u64,
                ..accounts.winner
            },
            authority: accounts.authority,
        }
    } else {
        accounts
    }
}

/// Creates a challenge: writes its record into the account provided for it.
///
/// The signer of the request becomes the authority, the challenge is open for
/// stake, and `total_stake` is the amount declared here. Whatever the account
/// held as a record before is overwritten. No value moves. Never fails.
pub fn initialize_challenge(
    accounts: &mut InitializeChallenge,
    challenge_id: String,
    stake_amount: u64,
) -> (r: Result<(), EngineError>)
    ensures
        r is Ok,
        is_new_record(
            final(accounts).challenge.record,
            old(accounts).authority.key,
            challenge_id@,
            stake_amount,
        ),
        final(accounts).challenge.key == old(accounts).challenge.key,
        final(accounts).challenge.lamports == old(accounts).challenge.lamports,
        final(accounts).authority == old(accounts).authority,
{
    accounts.challenge.record.authority = accounts.authority.key;
    accounts.challenge.record.challenge_id = challenge_id;
    accounts.challenge.record.total_stake = stake_amount;
    accounts.challenge.record.is_active = true;
    Ok(())
}

/// Adds `amount` of stake to a challenge.
///
/// A challenge that is not active is refused with `ChallengeInactive`. For an
/// active one the ledger is asked to move `amount` from the participant to the
/// challenge's account; the engine does not look at the participant's balance
/// itself, and a refusal of the ledger is handed on as it came. On success the
/// result is the instruction to the system program that makes the move. The
/// record is never touched.
pub fn stake_tokens(accounts: &mut StakeTokens, amount: u64) -> (r: Result<Instruction, EngineError>)
    ensures
        match stake_refusal(*old(accounts), amount) {
            Some(e) => r == Err::<Instruction, EngineError>(e),
            None => r is Ok && is_system_transfer(
                r->Ok_0,
                old(accounts).participant.key,
                old(accounts).challenge.key,
                amount,
            ),
        },
        *final(accounts) == after_stake(*old(accounts), amount),
        r is Ok ==> final(accounts).challenge.lamports == old(accounts).challenge.lamports + amount,
        r is Ok ==> final(accounts).participant.lamports == old(accounts).participant.lamports
            - amount,
        r is Err ==> *final(accounts) == *old(accounts),
        final(accounts).challenge.lamports + final(accounts).participant.lamports == old(
            accounts,
        ).challenge.lamports + old(accounts).participant.lamports,
        final(accounts).challenge.record == old(accounts).challenge.record,
{
    if !accounts.challenge.record.is_active {
        return Err(EngineError::Custom(CustomError::ChallengeInactive));
    }
    let ix = system_transfer(&accounts.participant.key, &accounts.challenge.key, amount);
    match transfer(&mut accounts.participant.lamports, &mut accounts.challenge.lamports, amount) {
        Ok(()) => Ok(ix),
        Err(e) => Err(EngineError::Ledger(e)),
    }
}

/// Pays `amount` out of a challenge's pool to the winner.
///
/// Only the challenge's authority may ask: any other signer is refused with
/// `Unauthorized`, whatever the amount. The pool is then debited and the
/// winner credited, both guarded: an amount above the pool's balance is
/// refused with `InsufficientFunds` and nothing moves. The record is never
/// touched, and the challenge stays active.
pub fn distribute_reward(accounts: &mut DistributeReward, amount: u64) -> (r: Result<
    (),
    EngineError,
>)
    ensures
        r == match distribute_refusal(*old(accounts), amount) {
            Some(e) => Err::<(), EngineError>(e),
            None => Ok(()),
        },
        *final(accounts) == after_distribute(*old(accounts), amount),
        r is Ok ==> final(accounts).challenge.lamports == old(accounts).challenge.lamports - amount,
        r is Ok ==> final(accounts).winner.lamports == old(accounts).winner.lamports + amount,
        r is Err ==> *final(accounts) == *old(accounts),
        final(accounts).challenge.lamports + final(accounts).winner.lamports == old(
            accounts,
        ).challenge.lamports + old(accounts).winner.lamports,
        final(accounts).challenge.record == old(accounts).challenge.record,
{
    if accounts.authority.key != accounts.challenge.record.authority {
        return Err(EngineError::Custom(CustomError::Unauthorized));
    }
    match transfer(&mut accounts.challenge.lamports, &mut accounts.winner.lamports, amount) {
        Ok(()) => Ok(()),
        Err(e) => Err(EngineError::Ledger(e)),
    }
}

} // verus!
