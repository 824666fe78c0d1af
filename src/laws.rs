//! Properties of the wager state machine that relate its steps.

use vstd::prelude::*;

use crate::contract::{
    call_won, flip_step, outcome_of, resolve_step, response_outcome, settle_step,
    ExternalCallError, FlipError, ResolveError, SignatureResponse, Totals, FLIP_COST, FLIP_KEEP,
};
use crate::hex_text::{hex_bytes, is_hex};

verus! {

/// A stake of exactly `FLIP_COST` counts one more wager and adds exactly
/// `FLIP_KEEP`, less than the stake, to the pool (unless a counter would
/// overflow); any other stake is refused, and a refused start leaves all
/// three counters as they were.
pub proof fn lemma_stake_accounting(t: Totals, deposit: u128)
    ensures
        FLIP_KEEP < FLIP_COST,
        deposit != FLIP_COST ==> flip_step(t, deposit) == Err::<Totals, FlipError>(
            FlipError::InvalidStakeAmount,
        ),
        deposit == FLIP_COST && t.pool + FLIP_KEEP <= u128::MAX && t.flips < u128::MAX
            ==> flip_step(t, deposit) is Ok,
        flip_step(t, deposit) is Ok ==> {
            let n = flip_step(t, deposit)->Ok_0;
            &&& deposit == FLIP_COST
            &&& n.flips == t.flips + 1
            &&& n.pool == t.pool + FLIP_KEEP
            &&& n.paid == t.paid
        },
{
}

/// A decoded signature whose digest is favourable pays out the whole pool:
/// `paid` grows by the pool and the pool becomes zero (unless `paid` would
/// overflow). An unfavourable one leaves the counters as they are.
pub proof fn lemma_payout_accounting(t: Totals, r_bytes: Seq<u8>, s_bytes: Seq<u8>)
    ensures
        outcome_of(r_bytes, s_bytes) && t.paid + t.pool <= u128::MAX ==> settle_step(
            t,
            outcome_of(r_bytes, s_bytes),
        ) == Ok::<Totals, ResolveError>(
            Totals { flips: t.flips, pool: 0, paid: (t.paid + t.pool) as u128 },
        ),
        !outcome_of(r_bytes, s_bytes) ==> settle_step(t, outcome_of(r_bytes, s_bytes))
            == Ok::<Totals, ResolveError>(t),
{
}

/// The state after resolving with each of a series of failed calls in turn.
pub open spec fn after_failed_calls(t: Totals, errors: Seq<ExternalCallError>) -> Result<
    Totals,
    ResolveError,
>
    decreases errors.len(),
{
    if errors.len() == 0 {
        Ok(t)
    } else {
        match resolve_step(t, Err(errors[0])) {
            Ok(next) => after_failed_calls(next, errors.drop_first()),
            Err(e) => Err(e),
        }
    }
}

/// Any number of resolutions with failed calls leave `flips`, `pool` and
/// `paid` as they were, and each of them loses.
pub proof fn lemma_failed_calls_change_nothing(t: Totals, errors: Seq<ExternalCallError>)
    ensures
        after_failed_calls(t, errors) == Ok::<Totals, ResolveError>(t),
        forall|i: int| 0 <= i < errors.len() ==> !call_won(Err(#[trigger] errors[i])),
    decreases errors.len(),
{
    if errors.len() > 0 {
        lemma_failed_calls_change_nothing(t, errors.drop_first());
    }
}

/// The outcome depends on the two decoded byte strings alone: two responses
/// that decode to the same bytes win or lose alike, whatever their hex text
/// looks like and whatever state they meet.
pub proof fn lemma_outcome_depends_on_bytes_only(a: SignatureResponse, b: SignatureResponse)
    requires
        is_hex(a.big_r@),
        is_hex(a.s@),
        is_hex(b.big_r@),
        is_hex(b.s@),
        hex_bytes(a.big_r@) == hex_bytes(b.big_r@),
        hex_bytes(a.s@) == hex_bytes(b.s@),
    ensures
        response_outcome(a) == response_outcome(b),
        call_won(Ok(a)) == call_won(Ok(b)),
        response_outcome(a) == Some(outcome_of(hex_bytes(a.big_r@), hex_bytes(a.s@))),
{
}

} // verus!
