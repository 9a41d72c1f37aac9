//! The analyzer's sliding window: the most recent samples, at most one
//! transform frame of them.

use std::collections::VecDeque;
use vstd::prelude::*;

verus! {

/// The last `n` elements of `s`, or all of `s` when it is shorter.
pub open spec fn keep_latest<T>(s: Seq<T>, n: nat) -> Seq<T> {
    if s.len() <= n {
        s
    } else {
        s.subrange(s.len() - n, s.len() as int)
    }
}

proof fn lemma_keep_latest_push<T>(s: Seq<T>, x: T, n: nat)
    requires
        n > 0,
    ensures
        keep_latest(keep_latest(s, n).push(x), n) == keep_latest(s.push(x), n),
{
    let k = keep_latest(s, n);
    if s.len() < n {
        assert(k == s);
    } else {
        assert(keep_latest(k.push(x), n) =~= keep_latest(s.push(x), n));
    }
}

/// Bounded window over a stream of samples. Beyond its capacity the
/// oldest samples are dropped.
pub struct SampleWindow<T> {
    items: VecDeque<T>,
    capacity: usize,
}

impl<T> View for SampleWindow<T> {
    type V = Seq<T>;

    closed spec fn view(&self) -> Seq<T> {
        self.items@
    }
}

impl<T> SampleWindow<T> {
    pub closed spec fn spec_capacity(&self) -> nat {
        self.capacity as nat
    }

    pub closed spec fn wf(&self) -> bool {
        0 < self.capacity && self.items@.len() <= self.capacity
    }

    /// An empty window holding up to `capacity` samples.
    pub fn new(capacity: usize) -> (r: Self)
        requires
            capacity > 0,
        ensures
            r.wf(),
            r@ == Seq::<T>::empty(),
            r.spec_capacity() == capacity,
    {
        SampleWindow { items: VecDeque::new(), capacity }
    }

    pub fn capacity(&self) -> (r: usize)
        ensures
            r == self.spec_capacity(),
    {
        self.capacity
    }

    /// Number of samples held.
    pub fn len(&self) -> (r: usize)
        requires
            self.wf(),
        ensures
            r == self@.len(),
    {
        self.items.len()
    }

    /// Whether a full frame is available.
    pub fn is_full(&self) -> (r: bool)
        requires
            self.wf(),
        ensures
            r == (self@.len() == self.spec_capacity()),
    {
        self.items.len() == self.capacity
    }

    /// Slides the window over `samples`: they are appended and the oldest
    /// samples beyond the capacity are dropped.
    pub fn add_samples(&mut self, samples: &[T])
        where
            T: Copy,
        requires
            old(self).wf(),
        ensures
            final(self).wf(),
            final(self).spec_capacity() == old(self).spec_capacity(),
            final(self)@ == keep_latest(old(self)@ + samples@, old(self).spec_capacity()),
    {
        let ghost start = self@;
        let ghost cap = self.capacity as nat;
        let mut i: usize = 0;
        while i < samples.len()
            invariant
                self.wf(),
                self.capacity == cap,
                i <= samples@.len(),
                self@ == keep_latest(start + samples@.subrange(0, i as int), cap),
            decreases samples@.len() - i,
        {
            let ghost seen = start + samples@.subrange(0, i as int);
            self.items.push_back(samples[i]);
            if self.items.len() > self.capacity {
                self.items.pop_front();
            }
            proof {
                lemma_keep_latest_push(seen, samples@[i as int], cap);
                assert(start + samples@.subrange(0, i + 1) =~= seen.push(samples@[i as int]));
                assert(self@ =~= keep_latest(keep_latest(seen, cap).push(samples@[i as int]), cap));
            }
            i = i + 1;
        }
        assert(samples@.subrange(0, i as int) =~= samples@);
    }

    /// A copy of the samples as one frame, oldest first, once the window is
    /// full; `None` while it is still filling.
    pub fn frame(&self) -> (r: Option<Vec<T>>)
        where
            T: Copy,
        requires
            self.wf(),
        ensures
            r is None <==> self@.len() < self.spec_capacity(),
            r matches Some(v) ==> v@ == self@,
    {
        if self.items.len() < self.capacity {
            return None;
        }
        let mut out: Vec<T> = Vec::with_capacity(self.capacity);
        let mut i: usize = 0;
        while i < self.items.len()
            invariant
                i <= self@.len(),
                out@ == self@.subrange(0, i as int),
            decreases self@.len() - i,
        {
            out.push(self.items[i]);
            i = i + 1;
            proof {
                assert(out@ =~= self@.subrange(0, i as int));
            }
        }
        assert(out@ =~= self@);
        Some(out)
    }
}

/// A window that, with the samples just added, still holds fewer than its
/// capacity keeps every sample and has no frame: an update then changes
/// nothing.
pub proof fn lemma_underfilled_window_has_no_frame<T>(held: Seq<T>, samples: Seq<T>, capacity: nat)
    requires
        held.len() + samples.len() < capacity,
    ensures
        keep_latest(held + samples, capacity) == held + samples,
        keep_latest(held + samples, capacity).len() < capacity,
{
}

} // verus!
