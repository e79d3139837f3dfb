use vstd::prelude::*;

use crate::engine::{cancel_outcome, claim_outcome, kept_on_cancel, update_outcome};
use crate::guard::{CancelVesting, ClaimTokens, UpdateBeneficiary};
use crate::state::{VestingContract, VestingError};

verus! {

/// The record after a series of claims, each at its own time and with its own
/// accounts, and the total released by them; a refused claim changes nothing.
pub open spec fn run_claims(c: VestingContract, steps: Seq<(ClaimTokens, i64)>) -> (
    VestingContract,
    int,
)
    decreases steps.len(),
{
    if steps.len() == 0 {
        (c, 0)
    } else {
        let (next, paid) = match claim_outcome(c, steps[0].0, steps[0].1 as int) {
            Ok((n, amount)) => (n, amount as int),
            Err(_) => (c, 0),
        };
        let (last, rest) = run_claims(next, steps.drop_first());
        (last, paid + rest)
    }
}

/// One claim keeps the record well formed, never lowers what was released,
/// and releases exactly what the custody account pays out.
pub proof fn lemma_claim_conserves(c: VestingContract, ctx: ClaimTokens, now: int)
    requires
        c.wf(),
    ensures
        claim_outcome(c, ctx, now) matches Ok((next, amount)) ==> {
            &&& next.wf()
            &&& next.total_amount == c.total_amount
            &&& c.released_amount < next.released_amount <= next.total_amount
            &&& next.custody_due() == c.custody_due() - amount
        },
{
    crate::schedule::lemma_vested_monotone(
        now,
        now,
        c.start_time as int,
        c.end_time as int,
        c.total_amount as nat,
        c.vesting_type,
    );
}

/// After any series of claims the released amount stays within the
/// deposit, never decreases, and the custody account, which paid out exactly
/// what was released, still holds the deposit less all that left it.
pub proof fn lemma_claims_conserve(c: VestingContract, steps: Seq<(ClaimTokens, i64)>, custody: int)
    requires
        c.wf(),
        custody == c.custody_due(),
    ensures
        run_claims(c, steps).0.wf(),
        run_claims(c, steps).0.total_amount == c.total_amount,
        c.released_amount <= run_claims(c, steps).0.released_amount <= c.total_amount,
        custody - run_claims(c, steps).1 == run_claims(c, steps).0.custody_due(),
    decreases steps.len(),
{
    if steps.len() > 0 {
        lemma_claim_conserves(c, steps[0].0, steps[0].1 as int);
        let next = match claim_outcome(c, steps[0].0, steps[0].1 as int) {
            Ok((n, _)) => n,
            Err(_) => c,
        };
        let paid = match claim_outcome(c, steps[0].0, steps[0].1 as int) {
            Ok((_, amount)) => amount as int,
            Err(_) => 0,
        };
        lemma_claims_conserve(next, steps.drop_first(), custody - paid);
    }
}

/// A cancellation keeps the record well formed, leaves what was released
/// alone, and returns exactly what the custody account pays out; from then
/// on the beneficiary is owed, at any time, what had vested at cancellation
/// (or what was already released, if that was more).
pub proof fn lemma_cancel_conserves(c: VestingContract, ctx: CancelVesting, now: int, later: int)
    requires
        c.wf(),
    ensures
        cancel_outcome(c, ctx, now) matches Ok((next, remainder)) ==> {
            &&& next.wf()
            &&& next.released_amount == c.released_amount
            &&& next.custody_due() == c.custody_due() - remainder
            &&& next.entitled_at(later) == kept_on_cancel(c, now)
            &&& remainder == c.total_amount - kept_on_cancel(c, now)
        },
{
    crate::schedule::lemma_vested_monotone(
        now,
        now,
        c.start_time as int,
        c.end_time as int,
        c.total_amount as nat,
        c.vesting_type,
    );
}

/// A second claim at the same instant, with the same accounts, has nothing
/// left to release.
pub proof fn lemma_claim_twice_same_time(c: VestingContract, ctx: ClaimTokens, now: int)
    requires
        c.wf(),
        claim_outcome(c, ctx, now) is Ok,
    ensures
        claim_outcome(claim_outcome(c, ctx, now)->Ok_0.0, ctx, now) == Err::<
            (VestingContract, nat),
            VestingError,
        >(VestingError::NothingToRelease),
{
    lemma_claim_conserves(c, ctx, now);
}

/// Once a claim has succeeded, the creator can no longer change the
/// beneficiary of the still active schedule.
pub proof fn lemma_no_update_after_claim(
    c: VestingContract,
    ctx: ClaimTokens,
    now: int,
    update: UpdateBeneficiary,
)
    requires
        c.wf(),
        claim_outcome(c, ctx, now) is Ok,
        update.creator == c.creator,
        !c.is_cancelled,
    ensures
        update_outcome(claim_outcome(c, ctx, now)->Ok_0.0, update) == Err::<
            VestingContract,
            VestingError,
        >(VestingError::AlreadyClaimed),
{
    lemma_claim_conserves(c, ctx, now);
}

/// A cancelled schedule cannot be cancelled again, whoever asks with the
/// same accounts and whenever.
pub proof fn lemma_cancel_once(c: VestingContract, ctx: CancelVesting, now: int, later: int)
    requires
        cancel_outcome(c, ctx, now) is Ok,
    ensures
        cancel_outcome(cancel_outcome(c, ctx, now)->Ok_0.0, ctx, later) == Err::<
            (VestingContract, nat),
            VestingError,
        >(VestingError::ContractCancelled),
{
}

} // verus!
