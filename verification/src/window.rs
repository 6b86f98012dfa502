//! The display sink's rolling window: a fixed-capacity FIFO of the most
//! recent samples, evicting the oldest on overflow.
//!
//! The window is generic in its element so that the unverified display side
//! can keep the floating-point Celsius values it plots; the verified
//! contracts speak only of the sequence of elements.

use std::collections::VecDeque;
use vstd::prelude::*;

verus! {

/// Number of samples the window keeps.
pub const WINDOW_CAPACITY: usize = 10;

/// What one arrival does to the window's contents: append, evicting the
/// oldest element first when the window is full.
pub open spec fn spec_arrive<T>(w: Seq<T>, x: T) -> Seq<T> {
    if w.len() < WINDOW_CAPACITY {
        w.push(x)
    } else {
        w.drop_first().push(x)
    }
}

/// The window's contents after a whole sequence of arrivals, starting empty.
pub open spec fn spec_window_of<T>(arrivals: Seq<T>) -> Seq<T>
    decreases arrivals.len(),
{
    if arrivals.len() == 0 {
        Seq::empty()
    } else {
        spec_arrive(spec_window_of(arrivals.drop_last()), arrivals.last())
    }
}

/// Rolling window bound: after any sequence of arrivals the window holds
/// exactly the last `min(arrivals, capacity)` of them, in arrival order.
pub proof fn lemma_window_bound<T>(arrivals: Seq<T>)
    ensures
        spec_window_of(arrivals).len() == if arrivals.len() <= WINDOW_CAPACITY {
            arrivals.len()
        } else {
            WINDOW_CAPACITY as nat
        },
        spec_window_of(arrivals) =~= arrivals.skip(
            if arrivals.len() <= WINDOW_CAPACITY {
                0
            } else {
                arrivals.len() - WINDOW_CAPACITY
            },
        ),
    decreases arrivals.len(),
{
    if arrivals.len() > 0 {
        lemma_window_bound(arrivals.drop_last());
    }
}

/// Fixed-capacity rolling window of the most recent elements.
pub struct RollingWindow<T> {
    buf: VecDeque<T>,
}

impl<T> View for RollingWindow<T> {
    type V = Seq<T>;

    closed spec fn view(&self) -> Seq<T> {
        self.buf@
    }
}

impl<T> RollingWindow<T> {
    /// The window never outgrows its capacity.
    pub closed spec fn inv(&self) -> bool {
        self.buf@.len() <= WINDOW_CAPACITY
    }

    /// An empty window.
    pub fn new() -> (w: Self)
        ensures
            w@ == Seq::<T>::empty(),
            w.inv(),
    {
        RollingWindow { buf: VecDeque::new() }
    }

    /// How many elements the window holds.
    pub fn len(&self) -> (n: usize)
        ensures
            n == self@.len(),
    {
        self.buf.len()
    }

    /// The element at position `i`, oldest first.
    pub fn get(&self, i: usize) -> (r: &T)
        requires
            i < self@.len(),
        ensures
            *r == self@[i as int],
    {
        &self.buf[i]
    }

    /// Take one arrival: append it, evicting the oldest element first when
    /// the window is at capacity.
    pub fn arrive(&mut self, x: T)
        requires
            old(self).inv(),
        ensures
            final(self).inv(),
            final(self)@ == spec_arrive(old(self)@, x),
    {
        if self.buf.len() >= WINDOW_CAPACITY {
            let _evicted = self.buf.pop_front();
            proof {
                assert(self.buf@ =~= old(self).buf@.drop_first());
            }
        }
        self.buf.push_back(x);
    }
}

} // verus!
