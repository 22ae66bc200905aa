use vstd::prelude::*;
use crate::error::LedgerError;

verus! {

/// What the ledger answers when asked to move `lamports` out of a balance of
/// `from` into a balance of `to`: the debit is looked at first, then the credit.
pub open spec fn transfer_refusal(from: u64, to: u64, lamports: u64) -> Option<LedgerError> {
    if lamports > from {
        Some(LedgerError::InsufficientFunds)
    } else if to + lamports > u64::MAX {
        Some(LedgerError::ArithmeticOverflow)
    } else {
        None
    }
}

/// The two balances, debited one first, once the ledger has answered: moved
/// by `lamports` where it agreed, as they were where it refused.
pub open spec fn balances_after_transfer(from: u64, to: u64, lamports: u64) -> (int, int) {
    if transfer_refusal(from, to, lamports) is None {
        (from - lamports, to + lamports)
    } else {
        (from as int, to as int)
    }
}

/// Moves `lamports` from one balance to another, wholly or not at all.
///
/// Both steps are guarded: the debit never takes a balance below zero and the
/// credit never wraps. On a refusal neither balance has changed.
pub fn transfer(from: &mut u64, to: &mut u64, lamports: u64) -> (r: Result<(), LedgerError>)
    ensures
        r == match transfer_refusal(*old(from), *old(to), lamports) {
            Some(e) => Err::<(), LedgerError>(e),
            None => Ok(()),
        },
        (*final(from) as int, *final(to) as int) == balances_after_transfer(
            *old(from),
            *old(to),
            lamports,
        ),
        *final(from) + *final(to) == *old(from) + *old(to),
{
    let debited: u64 = match from.checked_sub(lamports) {
        Some(rest) => rest,
        None => { return Err(LedgerError::InsufficientFunds); },
    };
    let credited: u64 = match to.checked_add(lamports) {
        Some(sum) => sum,
        None => { return Err(LedgerError::ArithmeticOverflow); },
    };
    *from = debited;
    *to = credited;
    Ok(())
}

} // verus!
