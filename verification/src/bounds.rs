//! The bound-adjustment algebra: how a stored `(lower, upper)` size bound
//! moves on each production step, and how the convenience constructors
//! derive one bound from the other.

use vstd::prelude::*;

verus! {

/// One countdown step for the lower bound: it decreases by one and
/// saturates at zero, never going negative.
pub open spec fn sat_dec(n: usize) -> usize {
    if n == 0 {
        0
    } else {
        (n - 1) as usize
    }
}

/// One countdown step for the optional upper bound: a present ceiling
/// decreases by one, but a ceiling already at zero becomes absent (unknown)
/// rather than claiming an impossible negative remaining count, and an
/// absent ceiling stays absent. The asymmetry with `sat_dec` is deliberate
/// and part of the observable contract.
pub open spec fn dec_or_absent(u: Option<usize>) -> Option<usize> {
    match u {
        None => None,
        Some(v) => if v == 0 {
            None
        } else {
            Some((v - 1) as usize)
        },
    }
}

/// The upper bound derived when a caller raises the lower bound to `lower`:
/// a present ceiling is raised to at least `lower`, an absent ceiling is
/// left absent.
pub open spec fn raised_upper(prev_upper: Option<usize>, lower: usize) -> Option<usize> {
    match prev_upper {
        None => None,
        Some(u) => Some(
            if u >= lower {
                u
            } else {
                lower
            },
        ),
    }
}

/// The lower bound derived when a caller declares the ceiling `upper`:
/// a present ceiling caps the previous lower bound, an absent ceiling
/// leaves it unchanged.
pub open spec fn capped_lower(prev_lower: usize, upper: Option<usize>) -> usize {
    match upper {
        None => prev_lower,
        Some(u) => if prev_lower <= u {
            prev_lower
        } else {
            u
        },
    }
}

/// The lower bound after `k` production steps from `lower`.
pub open spec fn lower_after(lower: usize, k: nat) -> usize
    decreases k,
{
    if k == 0 {
        lower
    } else {
        sat_dec(lower_after(lower, (k - 1) as nat))
    }
}

/// The optional upper bound after `k` production steps from `upper`.
pub open spec fn upper_after(upper: Option<usize>, k: nat) -> Option<usize>
    decreases k,
{
    if k == 0 {
        upper
    } else {
        dec_or_absent(upper_after(upper, (k - 1) as nat))
    }
}

/// Every production step lowers the lower bound by exactly one until it
/// reaches zero, and at zero it stays pinned there: it never goes negative,
/// however many steps are taken.
pub proof fn lemma_lower_counts_down(lower: usize, k: nat)
    ensures
        k <= lower ==> lower_after(lower, k) == lower - k,
        k >= lower ==> lower_after(lower, k) == 0,
    decreases k,
{
    if k > 0 {
        lemma_lower_counts_down(lower, (k - 1) as nat);
    }
}

/// A declared ceiling `Some(u)` counts down by one per production step while
/// it lasts: after `k <= u` steps it reads `Some(u - k)`, so the step that
/// reaches the ceiling leaves `Some(0)`; on every step beyond that the
/// ceiling is absent (unknown), never negative and never pinned at zero.
pub proof fn lemma_upper_counts_down(u: usize, k: nat)
    ensures
        k <= u ==> upper_after(Some(u), k) == Some((u - k) as usize),
        k > u ==> upper_after(Some(u), k) is None,
    decreases k,
{
    if k > 0 {
        lemma_upper_counts_down(u, (k - 1) as nat);
    }
}

/// An absent ceiling never reappears: once the upper bound is unknown, any
/// number of further production steps leaves it unknown.
pub proof fn lemma_absent_stays_absent(k: nat)
    ensures
        upper_after(None, k) is None,
    decreases k,
{
    if k > 0 {
        lemma_absent_stays_absent((k - 1) as nat);
    }
}

/// Raising the lower bound never leaves a present ceiling below it: the
/// derived ceiling is at least the requested lower bound and at least the
/// previous ceiling, and an unknown ceiling is kept unknown rather than
/// invented.
pub proof fn lemma_min_size_respects_ceiling(prev_upper: Option<usize>, lower: usize)
    ensures
        prev_upper is Some ==> {
            &&& raised_upper(prev_upper, lower) is Some
            &&& raised_upper(prev_upper, lower)->0 >= lower
            &&& raised_upper(prev_upper, lower)->0 >= prev_upper->0
        },
        prev_upper is None ==> raised_upper(prev_upper, lower) is None,
{
}

/// Declaring a ceiling never leaves the lower bound above it: with a present
/// ceiling the derived lower bound is at most the ceiling and at most the
/// previous lower bound, and with no ceiling the lower bound is unchanged.
pub proof fn lemma_max_size_respects_floor(prev_lower: usize, upper: Option<usize>)
    ensures
        upper is Some ==> capped_lower(prev_lower, upper) <= upper->0
            && capped_lower(prev_lower, upper) <= prev_lower,
        upper is None ==> capped_lower(prev_lower, upper) == prev_lower,
{
}

} // verus!
