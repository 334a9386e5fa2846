//! A bounded window of the most recent samples, oldest first.
//!
//! The moving-average smoother keeps its samples here and its running sum
//! beside it: [`SampleWindow::insert`] returns the sample that leaves, so the
//! sum is maintained incrementally.
use vstd::prelude::*;

verus! {

/// The window's contents after `x` arrives in a window of `capacity`
/// samples: appended, with the oldest dropped once the capacity is exceeded.
pub open spec fn window_after<T>(w: Seq<T>, x: T, capacity: nat) -> Seq<T> {
    if w.len() + 1 > capacity {
        w.push(x).drop_first()
    } else {
        w.push(x)
    }
}

/// The most recent samples, oldest first, at most a fixed number of them.
pub struct SampleWindow<T> {
    data: Vec<T>,
    max_length: usize,
}

impl<T> View for SampleWindow<T> {
    type V = Seq<T>;

    closed spec fn view(&self) -> Seq<T> {
        self.data@
    }
}

impl<T: Copy> SampleWindow<T> {
    /// The number of samples the window keeps.
    pub closed spec fn capacity(&self) -> nat {
        self.max_length as nat
    }

    pub closed spec fn wf(&self) -> bool {
        self.data@.len() <= self.max_length
    }

    /// An empty window that keeps up to `max_length` samples.
    pub fn new(max_length: usize) -> (r: SampleWindow<T>)
        ensures
            r.wf(),
            r@ == Seq::<T>::empty(),
            r.capacity() == max_length,
    {
        SampleWindow { data: Vec::new(), max_length }
    }

    /// Appends `x`; once the capacity is exceeded the oldest sample leaves and
    /// is returned.
    pub fn insert(&mut self, x: T) -> (r: Option<T>)
        requires
            old(self).wf(),
        ensures
            final(self).wf(),
            final(self).capacity() == old(self).capacity(),
            final(self)@ == window_after(old(self)@, x, old(self).capacity()),
            r == (if old(self)@.len() + 1 > old(self).capacity() {
                Some(old(self)@.push(x)[0])
            } else {
                None
            }),
    {
        self.data.push(x);
        if self.data.len() > self.max_length {
            let popped = self.data.remove(0);
            Some(popped)
        } else {
            None
        }
    }

    pub fn len(&self) -> (r: usize)
        ensures
            r == self@.len(),
    {
        self.data.len()
    }

    pub fn is_empty(&self) -> (r: bool)
        ensures
            r == (self@.len() == 0),
    {
        self.data.len() == 0
    }

    /// The most recent sample.
    pub fn newest(&self) -> (r: Option<T>)
        ensures
            r == (if self@.len() == 0 {
                None
            } else {
                Some(self@.last())
            }),
    {
        let n = self.data.len();
        if n == 0 {
            None
        } else {
            Some(self.data[n - 1])
        }
    }

    /// The oldest sample still in the window.
    pub fn oldest(&self) -> (r: Option<T>)
        ensures
            r == (if self@.len() == 0 {
                None
            } else {
                Some(self@[0])
            }),
    {
        if self.data.len() == 0 {
            None
        } else {
            Some(self.data[0])
        }
    }

    /// Whether the window holds fewer than an eighth of its capacity; a
    /// smoother then reports the raw sample rather than a noisy mean.
    pub fn in_warmup(&self) -> (r: bool)
        ensures
            r == (self@.len() < self.capacity() / 8),
    {
        self.data.len() < self.max_length / 8
    }

    /// What a smoother reports after inserting `raw`: `raw` itself during
    /// warm-up, else the window's `mean`.
    pub fn smoothed(&self, raw: T, mean: T) -> (r: T)
        ensures
            r == (if self@.len() < self.capacity() / 8 {
                raw
            } else {
                mean
            }),
    {
        if self.in_warmup() {
            raw
        } else {
            mean
        }
    }
}

/// The window's contents after `xs` arrived, in order, at an empty window.
pub open spec fn window_of<T>(xs: Seq<T>, capacity: nat) -> Seq<T>
    decreases xs.len(),
{
    if xs.len() == 0 {
        Seq::empty()
    } else {
        window_after(window_of(xs.drop_last(), capacity), xs.last(), capacity)
    }
}

/// After any sequence of samples arrives at an empty window, the window holds
/// exactly the last `capacity` of them (all of them, if fewer), in arrival
/// order; so it is in warm-up exactly while fewer than an eighth of its
/// capacity have arrived, and once `capacity` samples have arrived it holds
/// only those.
pub proof fn lemma_window_holds_last_samples<T>(xs: Seq<T>, capacity: nat)
    ensures
        window_of(xs, capacity) == xs.subrange(
            xs.len() - (if xs.len() < capacity {
                xs.len() as int
            } else {
                capacity as int
            }),
            xs.len() as int,
        ),
        (window_of(xs, capacity).len() < capacity / 8) == (xs.len() < capacity / 8),
    decreases xs.len(),
{
    let n = xs.len();
    if n > 0 {
        let ys = xs.drop_last();
        lemma_window_holds_last_samples(ys, capacity);
        let w = window_of(ys, capacity);
        if n - 1 < capacity {
            assert(w =~= ys);
            assert(w.push(xs.last()) =~= xs);
            assert(xs.subrange(0, n as int) =~= xs);
        } else {
            assert(w.push(xs.last()).drop_first() =~= xs.subrange(n - capacity, n as int));
        }
    } else {
        assert(xs.subrange(0, 0) =~= Seq::<T>::empty());
    }
}

} // verus!
