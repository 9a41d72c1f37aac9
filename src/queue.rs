//! The sample queue: an unbounded FIFO filled by the decoder and drained
//! whole by the consumer once per tick.

use std::collections::VecDeque;
use vstd::prelude::*;

verus! {

/// What one drain does: it hands out everything that was queued, in order,
/// and leaves the queue empty.
pub open spec fn drain_post<T>(before: Seq<T>, out: Seq<T>, after: Seq<T>) -> bool {
    out == before && after == Seq::<T>::empty()
}

/// Ordered buffer of processed samples between a producer and a consumer.
pub struct SampleQueue<T> {
    items: VecDeque<T>,
}

impl<T> View for SampleQueue<T> {
    type V = Seq<T>;

    closed spec fn view(&self) -> Seq<T> {
        self.items@
    }
}

impl<T> SampleQueue<T> {
    /// An empty queue.
    pub fn new() -> (r: Self)
        ensures
            r@ == Seq::<T>::empty(),
    {
        SampleQueue { items: VecDeque::new() }
    }

    /// Number of samples waiting.
    pub fn len(&self) -> (r: usize)
        ensures
            r == self@.len(),
    {
        self.items.len()
    }

    /// Appends a block of samples after those already queued.
    pub fn push_all(&mut self, samples: &[T])
        where
            T: Copy,
        ensures
            final(self)@ == old(self)@ + samples@,
    {
        let ghost start = self@;
        let mut i: usize = 0;
        while i < samples.len()
            invariant
                i <= samples@.len(),
                self@ == start + samples@.subrange(0, i as int),
            decreases samples@.len() - i,
        {
            self.items.push_back(samples[i]);
            i = i + 1;
            proof {
                assert(samples@.subrange(0, i as int) =~= samples@.subrange(0, i - 1 as int).push(
                    samples@[i - 1],
                ));
            }
        }
        assert(samples@.subrange(0, i as int) =~= samples@);
    }

    /// Takes every queued sample, oldest first, and leaves the queue empty.
    pub fn drain_all(&mut self) -> (r: Vec<T>)
        ensures
            drain_post(old(self)@, r@, final(self)@),
    {
        let ghost start = self@;
        let mut out: Vec<T> = Vec::new();
        while self.items.len() > 0
            invariant
                start == out@ + self@,
            decreases self@.len(),
        {
            let x = self.items.pop_front().unwrap();
            proof {
                assert(start == out@.push(x) + self@);
            }
            out.push(x);
        }
        assert(self@ =~= Seq::<T>::empty());
        assert(out@ =~= start);
        out
    }
}

/// Two drains with nothing pushed in between: the first returns what was
/// queued, the second returns nothing.
pub proof fn lemma_second_drain_is_empty<T>(
    queued: Seq<T>,
    first: Seq<T>,
    between: Seq<T>,
    second: Seq<T>,
    after: Seq<T>,
)
    requires
        drain_post(queued, first, between),
        drain_post(between, second, after),
    ensures
        first == queued,
        queued.len() > 0 ==> first.len() > 0,
        second.len() == 0,
        after.len() == 0,
{
}

} // verus!
