use std::collections::VecDeque;
use vstd::prelude::*;

verus! {

/// The last `n` items of `s`, or all of `s` when it is shorter.
pub open spec fn last_n<T>(s: Seq<T>, n: nat) -> Seq<T> {
    if s.len() <= n {
        s
    } else {
        s.subrange(s.len() - n, s.len() as int)
    }
}

/// Appending one item and then keeping the last `n` gives the same as keeping
/// the last `n` first.
pub proof fn lemma_last_n_push<T>(s: Seq<T>, x: T, n: nat)
    requires
        n > 0,
    ensures
        last_n(last_n(s, n).push(x), n) == last_n(s.push(x), n),
{
    if s.len() <= n {
    } else {
        assert(last_n(s, n).push(x).len() == n + 1);
        assert(last_n(last_n(s, n).push(x), n) =~= last_n(s.push(x), n));
    }
}

/// Appending a block and then keeping the last `n` gives the same as keeping
/// the last `n` first.
pub proof fn lemma_last_n_append<T>(s: Seq<T>, b: Seq<T>, n: nat)
    ensures
        last_n(last_n(s, n) + b, n) == last_n(s + b, n),
{
    assert(last_n(last_n(s, n) + b, n) =~= last_n(s + b, n));
}

/// Two blocks pushed in order into an empty window that can hold both leave
/// exactly their samples in it, the first block's before the second's.
pub proof fn lemma_blocks_kept_in_order<T>(first: Seq<T>, second: Seq<T>, capacity: nat)
    requires
        first.len() + second.len() <= capacity,
    ensures
        last_n(last_n(Seq::<T>::empty() + first, capacity) + second, capacity) == first + second,
{
    assert(Seq::<T>::empty() + first =~= first);
}

/// A fixed-capacity buffer of the most recent samples: once it holds
/// `capacity` samples, each new one evicts the oldest.
pub struct RollingWindow<T> {
    samples: VecDeque<T>,
    capacity: usize,
}

impl<T> View for RollingWindow<T> {
    type V = Seq<T>;

    /// The samples held, oldest first.
    closed spec fn view(&self) -> Seq<T> {
        self.samples@
    }
}

impl<T: Copy> RollingWindow<T> {
    pub closed spec fn spec_capacity(&self) -> nat {
        self.capacity as nat
    }

    pub closed spec fn wf(&self) -> bool {
        &&& self.capacity > 0
        &&& self.samples@.len() <= self.capacity
    }

    /// An empty window that keeps at most `capacity` samples.
    pub fn new(capacity: usize) -> (w: Self)
        requires
            capacity > 0,
        ensures
            w.wf(),
            w@ == Seq::<T>::empty(),
            w.spec_capacity() == capacity,
    {
        RollingWindow { samples: VecDeque::new(), capacity }
    }

    pub fn capacity(&self) -> (c: usize)
        ensures
            c == self.spec_capacity(),
    {
        self.capacity
    }

    pub fn len(&self) -> (n: usize)
        requires
            self.wf(),
        ensures
            n == self@.len(),
    {
        self.samples.len()
    }

    /// Whether the window holds `capacity` samples.
    pub fn is_full(&self) -> (b: bool)
        requires
            self.wf(),
        ensures
            b == (self@.len() == self.spec_capacity()),
    {
        self.samples.len() == self.capacity
    }

    /// Appends one sample, evicting the oldest when the window is full.
    pub fn push(&mut self, x: T)
        requires
            old(self).wf(),
        ensures
            final(self).wf(),
            final(self).spec_capacity() == old(self).spec_capacity(),
            final(self)@ == last_n(old(self)@.push(x), old(self).spec_capacity()),
    {
        if self.samples.len() == self.capacity {
            self.samples.pop_front();
        }
        self.samples.push_back(x);
        assert(self@ =~= last_n(old(self)@.push(x), old(self).spec_capacity()));
    }

    /// Appends a block of samples in order.
    pub fn push_block(&mut self, block: &[T])
        requires
            old(self).wf(),
        ensures
            final(self).wf(),
            final(self).spec_capacity() == old(self).spec_capacity(),
            final(self)@ == last_n(old(self)@ + block@, old(self).spec_capacity()),
    {
        let ghost start = self@;
        let ghost cap = self.spec_capacity();
        assert(start + block@.subrange(0, 0) =~= start);
        let mut i: usize = 0;
        while i < block.len()
            invariant
                self.wf(),
                self.spec_capacity() == cap,
                cap > 0,
                i <= block@.len(),
                start.len() <= cap,
                self@ == last_n(start + block@.subrange(0, i as int), cap),
            decreases block@.len() - i,
        {
            let ghost before = start + block@.subrange(0, i as int);
            self.push(block[i]);
            proof {
                lemma_last_n_push(before, block@[i as int], cap);
                assert(before.push(block@[i as int]) =~= start + block@.subrange(0, i + 1));
            }
            i = i + 1;
        }
        assert(block@.subrange(0, block@.len() as int) =~= block@);
    }

    /// The samples held, oldest first.
    pub fn contents(&self) -> (v: Vec<T>)
        requires
            self.wf(),
        ensures
            v@ == self@,
    {
        let mut v: Vec<T> = Vec::new();
        let mut i: usize = 0;
        while i < self.samples.len()
            invariant
                i <= self@.len(),
                v@ == self@.subrange(0, i as int),
            decreases self@.len() - i,
        {
            v.push(self.samples[i]);
            i = i + 1;
            assert(v@ =~= self@.subrange(0, i as int));
        }
        assert(self@.subrange(0, self@.len() as int) =~= self@);
        v
    }
}

} // verus!
