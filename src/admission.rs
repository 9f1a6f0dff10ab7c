//! What a concurrency limit implies for completion time.
//!
//! Requests that each hold a permit for one fixed-length round, with at most
//! `limit` permits out at once, are modelled by the round in which each one
//! runs. However they are placed, they need enough rounds to hold them all.
use vstd::prelude::*;

verus! {

/// How many requests run in round `r`.
pub open spec fn in_round(rounds: Seq<nat>, r: nat) -> nat
    decreases rounds.len(),
{
    if rounds.len() == 0 {
        0
    } else {
        in_round(rounds.drop_last(), r) + if rounds.last() == r {
            1nat
        } else {
            0nat
        }
    }
}

/// How many requests run in round `r` or earlier.
pub open spec fn up_to_round(rounds: Seq<nat>, r: nat) -> nat
    decreases rounds.len(),
{
    if rounds.len() == 0 {
        0
    } else {
        up_to_round(rounds.drop_last(), r) + if rounds.last() <= r {
            1nat
        } else {
            0nat
        }
    }
}

proof fn lemma_first_round(rounds: Seq<nat>)
    ensures
        up_to_round(rounds, 0) == in_round(rounds, 0),
    decreases rounds.len(),
{
    if rounds.len() > 0 {
        lemma_first_round(rounds.drop_last());
    }
}

proof fn lemma_next_round(rounds: Seq<nat>, r: nat)
    ensures
        up_to_round(rounds, r + 1) == up_to_round(rounds, r) + in_round(rounds, r + 1),
    decreases rounds.len(),
{
    if rounds.len() > 0 {
        lemma_next_round(rounds.drop_last(), r);
    }
}

proof fn lemma_rounds_hold_at_most(rounds: Seq<nat>, limit: nat, r: nat)
    requires
        forall|q: nat| #[trigger] in_round(rounds, q) <= limit,
    ensures
        up_to_round(rounds, r) <= (r + 1) * limit,
    decreases r,
{
    if r == 0 {
        lemma_first_round(rounds);
        assert(in_round(rounds, 0) <= limit);
        assert((r + 1) * limit == limit) by (nonlinear_arith)
            requires
                r == 0,
        ;
    } else {
        let p = (r - 1) as nat;
        lemma_rounds_hold_at_most(rounds, limit, p);
        lemma_next_round(rounds, p);
        assert(in_round(rounds, r) <= limit);
        assert((p + 1) * limit + limit == (r + 1) * limit) by (nonlinear_arith)
            requires
                p + 1 == r,
        ;
    }
}

proof fn lemma_all_by_last(rounds: Seq<nat>, last: nat)
    requires
        forall|i: int| 0 <= i < rounds.len() ==> rounds[i] <= last,
    ensures
        up_to_round(rounds, last) == rounds.len(),
    decreases rounds.len(),
{
    if rounds.len() > 0 {
        lemma_all_by_last(rounds.drop_last(), last);
        assert(rounds.last() == rounds[rounds.len() - 1]);
    }
}

/// Requests run in rounds numbered up to `last`, with at most `limit` in any
/// round, number at most `(last + 1) * limit`: completing `n` of them takes
/// at least `ceil(n / limit)` rounds of the per-request delay.
pub proof fn lemma_limit_bounds_completion(rounds: Seq<nat>, limit: nat, last: nat)
    requires
        forall|i: int| 0 <= i < rounds.len() ==> rounds[i] <= last,
        forall|q: nat| #[trigger] in_round(rounds, q) <= limit,
    ensures
        rounds.len() <= (last + 1) * limit,
{
    lemma_all_by_last(rounds, last);
    lemma_rounds_hold_at_most(rounds, limit, last);
}

} // verus!
