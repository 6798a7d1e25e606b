//! A set-once slot with one waiting task, and a queue whose waiting tasks are
//! all woken by a push. Wakers are named by numbers the driver hands out; an
//! operation returns the wakers the driver must wake.
use vstd::prelude::*;

use crate::handle::with_registered;

verus! {

/// Readiness of a poll.
pub enum Ready<T> {
    Ready(T),
    Pending,
}

/// A slot that is set once and taken by the task that polls it.
pub struct Slot<T> {
    value: Option<T>,
    waker: Option<u64>,
    set: bool,
}

impl<T> Slot<T> {
    pub closed spec fn value(&self) -> Option<T> {
        self.value
    }

    pub closed spec fn waker(&self) -> Option<u64> {
        self.waker
    }

    /// Whether the slot was set, even if its value was taken since.
    pub closed spec fn is_set(&self) -> bool {
        self.set
    }

    /// An empty slot, with no waiting task.
    pub fn new() -> (r: Self)
        ensures
            r.value() is None,
            r.waker() is None,
            !r.is_set(),
    {
        Slot { value: None, waker: None, set: false }
    }

    /// Sets the slot, which was never set; returns the waiting task's waker, if
    /// any, which is forgotten.
    pub fn set(&mut self, value: T) -> (wake: Option<u64>)
        requires
            !old(self).is_set(),
        ensures
            final(self).value() == Some(value),
            final(self).is_set(),
            wake == old(self).waker(),
            final(self).waker() is None,
    {
        self.value = Some(value);
        self.set = true;
        self.waker.take()
    }

    /// Takes the value if it is there; otherwise the poller's waker becomes the
    /// waiting one, replacing another.
    pub fn poll(&mut self, waker: u64) -> (r: Ready<T>)
        ensures
            final(self).is_set() == old(self).is_set(),
            final(self).value() is None,
            match old(self).value() {
                Some(v) => r == Ready::Ready(v) && final(self).waker() == old(self).waker(),
                None => r is Pending && final(self).waker() == Some(waker),
            },
    {
        match self.value.take() {
            Some(v) => Ready::Ready(v),
            None => {
                self.waker = Some(waker);
                Ready::Pending
            },
        }
    }
}

/// A queue of values and the wakers of the tasks waiting for one.
pub struct Queue<T> {
    items: Vec<T>,
    wakers: Vec<u64>,
}

impl<T> Queue<T> {
    pub closed spec fn items(&self) -> Seq<T> {
        self.items@
    }

    pub closed spec fn wakers(&self) -> Seq<u64> {
        self.wakers@
    }

    /// An empty queue.
    pub fn new() -> (r: Self)
        ensures
            r.items().len() == 0,
            r.wakers().len() == 0,
    {
        Queue { items: Vec::new(), wakers: Vec::new() }
    }

    /// Appends a value; every waiting task is returned to be woken, and forgotten.
    pub fn push(&mut self, value: T) -> (wake: Vec<u64>)
        ensures
            final(self).items() == old(self).items().push(value),
            wake@ == old(self).wakers(),
            final(self).wakers().len() == 0,
    {
        self.items.push(value);
        let mut wake: Vec<u64> = Vec::new();
        std::mem::swap(&mut wake, &mut self.wakers);
        wake
    }

    /// Takes every queued value, in the order they were pushed.
    pub fn take(&mut self) -> (r: Vec<T>)
        ensures
            r@ == old(self).items(),
            final(self).items().len() == 0,
            final(self).wakers() == old(self).wakers(),
    {
        let mut r: Vec<T> = Vec::new();
        std::mem::swap(&mut r, &mut self.items);
        r
    }

    /// Takes every queued value if there is one; otherwise the poller's waker is
    /// registered, once, and the queue is pending.
    pub fn poll(&mut self, waker: u64) -> (r: Ready<Vec<T>>)
        ensures
            final(self).items().len() == 0,
            old(self).items().len() == 0 ==> r is Pending && final(self).wakers() == with_registered(
                old(self).wakers(),
                waker,
            ),
            old(self).items().len() > 0 ==> (r matches Ready::Ready(v) && v@ == old(self).items())
                && final(self).wakers() == old(self).wakers(),
    {
        if self.items.len() == 0 {
            if !contains(&self.wakers, waker) {
                self.wakers.push(waker);
            }
            Ready::Pending
        } else {
            Ready::Ready(self.take())
        }
    }
}

/// Whether `w` is among `ws`.
fn contains(ws: &Vec<u64>, w: u64) -> (r: bool)
    ensures
        r == ws@.contains(w),
{
    let mut i: usize = 0;
    while i < ws.len()
        invariant
            i <= ws@.len(),
            forall|j: int| 0 <= j < i ==> ws@[j] != w,
        decreases ws.len() - i,
    {
        if ws[i] == w {
            assert(ws@[i as int] == w);
            return true;
        }
        i = i + 1;
    }
    false
}

} // verus!
