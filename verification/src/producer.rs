//! The sequential-production protocol, and a materializing consumer that
//! drains a producer into a vector.

use vstd::prelude::*;

verus! {

/// A sequential producer: when driven, it yields a sequence of values one
/// at a time and eventually signals exhaustion.
///
/// The mathematical model has two parts. `remaining` is the sequence of
/// values the producer will still yield, in order; `next` is tied to it
/// exactly, so two producers with equal `remaining` yield the same values.
/// `spec_size_hint` is the advisory `(lower, upper)` size bound that
/// `size_hint` reports; it is a hint only, deliberately not tied to
/// `remaining`, and a consumer must stay correct when the two disagree.
pub trait Producer: Sized {
    type Item;

    /// The values this producer will still yield, in order.
    spec fn remaining(&self) -> Seq<Self::Item>;

    /// The advisory size bound this producer currently reports.
    spec fn spec_size_hint(&self) -> (usize, Option<usize>);

    /// Yield the next value, or signal exhaustion with `None`.
    ///
    /// An exhausted producer stays exhausted: once `remaining` is empty,
    /// every further call returns `None` and yields nothing new.
    fn next(&mut self) -> (r: Option<Self::Item>)
        ensures
            old(self).remaining().len() == 0 ==> r is None && final(self).remaining()
                == old(self).remaining(),
            old(self).remaining().len() > 0 ==> r == Some(old(self).remaining()[0])
                && final(self).remaining() == old(self).remaining().drop_first(),
    ;

    /// Report the advisory size bound `(lower, upper)`; an absent upper
    /// bound means the ceiling is unknown. Querying never changes the
    /// producer.
    fn size_hint(&self) -> (r: (usize, Option<usize>))
        ensures
            r == self.spec_size_hint(),
    ;
}

/// Drain a producer into a vector: the materializing consumer.
///
/// The result holds exactly the values the producer had left, in order.
/// The producer's reported lower bound is used only to pre-size the
/// vector's storage; an inaccurate hint costs efficiency, never values.
pub fn collect_values<P: Producer>(p: P) -> (r: Vec<P::Item>)
    ensures
        r@ == p.remaining(),
{
    let ghost values: Seq<P::Item> = p.remaining();
    let mut q = p;
    let (lower, _) = q.size_hint();
    let mut out: Vec<P::Item> = Vec::with_capacity(lower);
    proof {
        assert(out@ + q.remaining() =~= values);
    }
    loop
        invariant
            out@ + q.remaining() == values,
        ensures
            out@ == values,
        decreases q.remaining().len(),
    {
        match q.next() {
            Some(x) => {
                out.push(x);
                proof {
                    assert(out@ + q.remaining() =~= values);
                }
            },
            None => {
                proof {
                    assert(out@ =~= values);
                }
                break ;
            },
        }
    }
    out
}

} // verus!
