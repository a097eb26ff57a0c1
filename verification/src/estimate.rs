//! The size-estimating decorator and the attachment capability that builds
//! it on top of any producer.

use vstd::prelude::*;

use crate::bounds::capped_lower;
use crate::bounds::dec_or_absent;
use crate::bounds::raised_upper;
use crate::bounds::sat_dec;
use crate::producer::Producer;

verus! {

/// A decorator that wraps a producer and substitutes caller-supplied size
/// bounds for the wrapped producer's own.
///
/// It yields exactly the values the wrapped producer yields, in the same
/// order. Every production step decrements the stored bounds, whether or
/// not the step yielded a value: the lower bound saturates at zero, and a
/// present upper bound that has already reached zero becomes absent on the
/// next step. The bounds are never validated against the wrapped producer
/// and only ever move through production steps.
pub struct SizeEstimate<I> {
    iter: I,
    lower: usize,
    upper: Option<usize>,
}

impl<I: Producer> Producer for SizeEstimate<I> {
    type Item = I::Item;

    /// The decorator yields whatever the wrapped producer has left.
    closed spec fn remaining(&self) -> Seq<I::Item> {
        self.iter.remaining()
    }

    /// The decorator reports its own stored bounds, not the wrapped
    /// producer's.
    closed spec fn spec_size_hint(&self) -> (usize, Option<usize>) {
        (self.lower, self.upper)
    }

    /// Delegate to the wrapped producer and return its result unchanged;
    /// always count both stored bounds down one step, even when the call
    /// signals exhaustion.
    fn next(&mut self) -> (r: Option<I::Item>)
        ensures
            final(self).spec_size_hint().0 == sat_dec(old(self).spec_size_hint().0),
            final(self).spec_size_hint().1 == dec_or_absent(old(self).spec_size_hint().1),
    {
        self.lower = if self.lower == 0 {
            0
        } else {
            self.lower - 1
        };
        self.upper = match self.upper {
            None => None,
            Some(u) => if u == 0 {
                None
            } else {
                Some(u - 1)
            },
        };
        self.iter.next()
    }

    fn size_hint(&self) -> (r: (usize, Option<usize>)) {
        (self.lower, self.upper)
    }
}

/// The estimation-attachment capability: every producer gains these
/// constructors, each of which takes ownership of the receiver and wraps
/// it in a [`SizeEstimate`] decorator.
///
/// Each constructor promises the same two things: the decorated producer
/// will yield exactly the values the receiver would have yielded, and its
/// initially reported bound is the stated function of the supplied values
/// and, where relevant, the receiver's own current bound.
pub trait EstimateSize: Producer {
    /// Wrap the receiver, storing `lower` and `upper` verbatim as the
    /// reported bound; the receiver's own bound is not consulted.
    fn estimate_size(self, lower: usize, upper: Option<usize>) -> (r: SizeEstimate<Self>)
        ensures
            r.remaining() == self.remaining(),
            r.spec_size_hint() == (lower, upper),
    ;

    /// Wrap the receiver, declaring that exactly `size` values are
    /// expected: the bound becomes `(size, Some(size))`.
    fn estimate_exact_size(self, size: usize) -> (r: SizeEstimate<Self>)
        ensures
            r.remaining() == self.remaining(),
            r.spec_size_hint() == (size, Some(size)),
    ;

    /// Wrap the receiver, raising the lower bound to `lower`. An upper
    /// bound the receiver already reports is raised to at least `lower` so
    /// the new floor never exceeds it; an unknown ceiling stays unknown.
    fn estimate_min_size(self, lower: usize) -> (r: SizeEstimate<Self>)
        ensures
            r.remaining() == self.remaining(),
            r.spec_size_hint().0 == lower,
            r.spec_size_hint().1 == raised_upper(self.spec_size_hint().1, lower),
    ;

    /// Wrap the receiver, declaring the ceiling `upper`. The lower bound
    /// the receiver already reports is capped at a present ceiling so the
    /// floor never exceeds it; with no ceiling it is kept unchanged.
    fn estimate_max_size(self, upper: Option<usize>) -> (r: SizeEstimate<Self>)
        ensures
            r.remaining() == self.remaining(),
            r.spec_size_hint().0 == capped_lower(self.spec_size_hint().0, upper),
            r.spec_size_hint().1 == upper,
    ;
}

impl<I: Producer> EstimateSize for I {
    fn estimate_size(self, lower: usize, upper: Option<usize>) -> (r: SizeEstimate<Self>) {
        SizeEstimate { iter: self, lower, upper }
    }

    fn estimate_exact_size(self, size: usize) -> (r: SizeEstimate<Self>) {
        self.estimate_size(size, Some(size))
    }

    fn estimate_min_size(self, lower: usize) -> (r: SizeEstimate<Self>) {
        let (_, prev_upper) = self.size_hint();
        let upper: Option<usize> = match prev_upper {
            None => None,
            Some(u) => Some(
                if u >= lower {
                    u
                } else {
                    lower
                },
            ),
        };
        self.estimate_size(lower, upper)
    }

    fn estimate_max_size(self, upper: Option<usize>) -> (r: SizeEstimate<Self>) {
        let (prev_lower, _) = self.size_hint();
        let lower: usize = match upper {
            None => prev_lower,
            Some(u) => if prev_lower <= u {
                prev_lower
            } else {
                u
            },
        };
        self.estimate_size(lower, upper)
    }
}

} // verus!
