use vstd::prelude::*;
use crate::engine::{after_distribute, after_stake, distribute_refusal, is_new_record, stake_refusal};
use crate::error::{CustomError, EngineError, LedgerError};
use crate::pubkey::Pubkey;
use crate::state::{AccountInfo, ChallengeAccount, DistributeReward, StakeTokens};

verus! {

/// One request made against a challenge after its creation.
pub enum Request {
    /// `participant` offers `amount` of stake.
    Stake { participant: AccountInfo, amount: u64 },
    /// `authority` signs for a payout of `amount` to `winner`.
    Distribute { winner: AccountInfo, authority: AccountInfo, amount: u64 },
}

/// The challenge's account after one request was handled, accepted or not.
pub open spec fn after_request(challenge: ChallengeAccount, request: Request) -> ChallengeAccount {
    match request {
        Request::Stake { participant, amount } => after_stake(
            StakeTokens { challenge, participant },
            amount,
        ).challenge,
        Request::Distribute { winner, authority, amount } => after_distribute(
            DistributeReward { challenge, winner, authority },
            amount,
        ).challenge,
    }
}

/// The challenge's account after a history of requests, handled in order.
pub open spec fn after_history(challenge: ChallengeAccount, history: Seq<Request>) -> ChallengeAccount
    decreases history.len(),
{
    if history.len() == 0 {
        challenge
    } else {
        after_request(after_history(challenge, history.drop_last()), history.last())
    }
}

/// Whatever is asked of a challenge after its creation, in whatever order and
/// whether accepted or refused, its record and its address stay as they were.
pub proof fn lemma_record_outlives_history(challenge: ChallengeAccount, history: Seq<Request>)
    ensures
        after_history(challenge, history).record == challenge.record,
        after_history(challenge, history).key == challenge.key,
    decreases history.len(),
{
    if history.len() > 0 {
        lemma_record_outlives_history(challenge, history.drop_last());
    }
}

/// A record as creation wrote it still names its creator as authority, is
/// still active and still declares the stake given at creation, whatever
/// staking and paying out has happened since.
pub proof fn lemma_creation_is_kept(
    challenge: ChallengeAccount,
    creator: Pubkey,
    challenge_id: Seq<char>,
    stake_amount: u64,
    history: Seq<Request>,
)
    requires
        is_new_record(challenge.record, creator, challenge_id, stake_amount),
    ensures
        is_new_record(after_history(challenge, history).record, creator, challenge_id, stake_amount),
{
    lemma_record_outlives_history(challenge, history);
}

/// The pool grows only by stake and shrinks only by payouts: a stake request
/// never lowers the balance of the challenge's account, and a payout request
/// never raises it.
pub proof fn lemma_pool_moves_one_way(challenge: ChallengeAccount, request: Request)
    ensures
        request is Stake ==> after_request(challenge, request).lamports >= challenge.lamports,
        request is Distribute ==> after_request(challenge, request).lamports <= challenge.lamports,
{
}

/// Stake offered to a challenge that is not active is refused with
/// `ChallengeInactive`, and no balance changes.
pub proof fn lemma_inactive_refuses_stake(accounts: StakeTokens, amount: u64)
    requires
        !accounts.challenge.record.is_active,
    ensures
        stake_refusal(accounts, amount) == Some(
            EngineError::Custom(CustomError::ChallengeInactive),
        ),
        after_stake(accounts, amount) == accounts,
{
}

/// A payout asked for by anybody but the challenge's authority is refused
/// with `Unauthorized`, whatever the amount, and no balance changes.
pub proof fn lemma_stranger_refused_payout(accounts: DistributeReward, amount: u64)
    requires
        accounts.authority.key != accounts.challenge.record.authority,
    ensures
        distribute_refusal(accounts, amount) == Some(
            EngineError::Custom(CustomError::Unauthorized),
        ),
        after_distribute(accounts, amount) == accounts,
{
}

/// A payout asked for by the authority of more than the pool holds is refused
/// with `InsufficientFunds`, and no balance changes.
pub proof fn lemma_overdraw_refused(accounts: DistributeReward, amount: u64)
    requires
        accounts.authority.key == accounts.challenge.record.authority,
        amount > accounts.challenge.lamports,
    ensures
        distribute_refusal(accounts, amount) == Some(
            EngineError::Ledger(LedgerError::InsufficientFunds),
        ),
        after_distribute(accounts, amount) == accounts,
{
}

/// An accepted stake moves exactly `amount`: the pool gains it, the
/// participant loses it, and the two balances together are what they were.
pub proof fn lemma_stake_moves_amount(accounts: StakeTokens, amount: u64)
    requires
        stake_refusal(accounts, amount) is None,
    ensures
        after_stake(accounts, amount).challenge.lamports == accounts.challenge.lamports + amount,
        after_stake(accounts, amount).participant.lamports == accounts.participant.lamports
            - amount,
        after_stake(accounts, amount).challenge.lamports + after_stake(
            accounts,
            amount,
        ).participant.lamports == accounts.challenge.lamports + accounts.participant.lamports,
{
}

/// Staking is not idempotent: the same amount staked twice by the same
/// participant, both times accepted, has moved twice the amount.
pub proof fn lemma_stake_twice_moves_double(accounts: StakeTokens, amount: u64)
    requires
        stake_refusal(accounts, amount) is None,
        stake_refusal(after_stake(accounts, amount), amount) is None,
    ensures
        after_stake(after_stake(accounts, amount), amount).challenge.lamports
            == accounts.challenge.lamports + 2 * amount,
        after_stake(after_stake(accounts, amount), amount).participant.lamports
            == accounts.participant.lamports - 2 * amount,
        amount > 0 ==> after_stake(after_stake(accounts, amount), amount) != after_stake(
            accounts,
            amount,
        ),
{
}

/// An accepted payout moves exactly `amount`: the pool loses it, the winner
/// gains it, and the two balances together are what they were.
pub proof fn lemma_distribute_moves_amount(accounts: DistributeReward, amount: u64)
    requires
        distribute_refusal(accounts, amount) is None,
    ensures
        after_distribute(accounts, amount).challenge.lamports == accounts.challenge.lamports
            - amount,
        after_distribute(accounts, amount).winner.lamports == accounts.winner.lamports + amount,
        after_distribute(accounts, amount).challenge.lamports + after_distribute(
            accounts,
            amount,
        ).winner.lamports == accounts.challenge.lamports + accounts.winner.lamports,
{
}

} // verus!
