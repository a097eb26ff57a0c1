//! Concrete sequential producers: a half-open integer range and a vector
//! drained front to back. Both report their true remaining count as their
//! native size bound.

use vstd::prelude::*;

use crate::producer::Producer;

verus! {

/// The integers of the half-open range `start..end`, in increasing order;
/// empty when `start >= end`.
pub open spec fn range_seq(start: usize, end: usize) -> Seq<usize> {
    if start <= end {
        Seq::new((end - start) as nat, |i: int| (start + i) as usize)
    } else {
        Seq::empty()
    }
}

/// A producer that yields the integers of a half-open range in increasing
/// order.
pub struct RangeProducer {
    cur: usize,
    end: usize,
}

impl RangeProducer {
    /// A producer for the range `start..end`; it is empty when
    /// `start >= end`, and its native bound is its exact remaining count.
    pub fn new(start: usize, end: usize) -> (r: RangeProducer)
        ensures
            r.remaining() == range_seq(start, end),
            r.spec_size_hint() == (
                range_seq(start, end).len() as usize,
                Some(range_seq(start, end).len() as usize),
            ),
    {
        RangeProducer { cur: start, end }
    }
}

impl Producer for RangeProducer {
    type Item = usize;

    closed spec fn remaining(&self) -> Seq<usize> {
        range_seq(self.cur, self.end)
    }

    closed spec fn spec_size_hint(&self) -> (usize, Option<usize>) {
        (
            range_seq(self.cur, self.end).len() as usize,
            Some(range_seq(self.cur, self.end).len() as usize),
        )
    }

    fn next(&mut self) -> (r: Option<usize>) {
        if self.cur < self.end {
            let v = self.cur;
            self.cur = self.cur + 1;
            proof {
                assert(self.remaining() =~= old(self).remaining().drop_first());
            }
            Some(v)
        } else {
            None
        }
    }

    fn size_hint(&self) -> (r: (usize, Option<usize>)) {
        let n = if self.cur <= self.end {
            self.end - self.cur
        } else {
            0
        };
        (n, Some(n))
    }
}

/// A producer that yields a vector's elements front to back.
pub struct VecProducer<T> {
    items: Vec<T>,
    pos: usize,
}

impl<T: Copy> VecProducer<T> {
    /// A producer over all elements of `items`, in order; its native bound
    /// is its exact remaining count.
    pub fn new(items: Vec<T>) -> (r: VecProducer<T>)
        ensures
            r.remaining() == items@,
            r.spec_size_hint() == (items@.len() as usize, Some(items@.len() as usize)),
    {
        let r = VecProducer { items, pos: 0 };
        proof {
            assert(r.remaining() =~= r.items@);
        }
        r
    }
}

impl<T: Copy> Producer for VecProducer<T> {
    type Item = T;

    closed spec fn remaining(&self) -> Seq<T> {
        if self.pos <= self.items@.len() {
            self.items@.skip(self.pos as int)
        } else {
            Seq::empty()
        }
    }

    closed spec fn spec_size_hint(&self) -> (usize, Option<usize>) {
        (self.remaining().len() as usize, Some(self.remaining().len() as usize))
    }

    fn next(&mut self) -> (r: Option<T>) {
        if self.pos < self.items.len() {
            let v = self.items[self.pos];
            self.pos = self.pos + 1;
            proof {
                assert(self.remaining() =~= old(self).remaining().drop_first());
            }
            Some(v)
        } else {
            None
        }
    }

    fn size_hint(&self) -> (r: (usize, Option<usize>)) {
        let n = if self.pos <= self.items.len() {
            self.items.len() - self.pos
        } else {
            0
        };
        (n, Some(n))
    }
}

} // verus!
