//! Handles that resolve into a loaded asset or an error, and the shared state
//! of a future that several handles poll. Wakers are named by numbers the
//! driver hands out; a step returns the wakers the driver must wake.
use vstd::prelude::*;

use crate::error::{error_view, Error};

verus! {

/// Handle for an asset of type `A` that eventually resolves to the asset or an
/// error. Setting the outcome wakes every task that polled the handle.
pub struct Handle<A> {
    outcome: Option<Result<A, Error>>,
    wakers: Vec<u64>,
}

/// Readiness of a handle's outcome.
pub enum Poll<T> {
    Ready(T),
    Pending,
}

impl<A: Clone> Handle<A> {
    pub closed spec fn outcome(&self) -> Option<Result<A, Error>> {
        self.outcome
    }

    pub closed spec fn wakers(&self) -> Seq<u64> {
        self.wakers@
    }

    /// A handle whose outcome is not set yet.
    pub fn new() -> (r: Self)
        ensures
            r.outcome() is None,
            r.wakers().len() == 0,
    {
        Handle { outcome: None, wakers: Vec::new() }
    }

    /// The outcome, or `Pending` while it is not set.
    pub fn query(&self) -> (r: Poll<&Result<A, Error>>)
        ensures
            match self.outcome() {
                Some(o) => r matches Poll::Ready(ro) && *ro == o,
                None => r is Pending,
            },
    {
        match &self.outcome {
            Some(o) => Poll::Ready(o),
            None => Poll::Pending,
        }
    }

    /// Whether the asset is not loaded yet.
    pub fn is_pending(&self) -> (r: bool)
        ensures
            r == self.outcome() is None,
    {
        !self.is_ready()
    }

    /// Whether loading of the asset is complete.
    pub fn is_ready(&self) -> (r: bool)
        ensures
            r == self.outcome() is Some,
    {
        self.outcome.is_some()
    }

    /// Whether loading of the asset failed.
    pub fn is_err(&self) -> (r: bool)
        ensures
            r == (self.outcome() matches Some(Err(_))),
    {
        match self.query() {
            Poll::Pending => false,
            Poll::Ready(result) => result.is_err(),
        }
    }

    /// Whether loading of the asset succeeded.
    pub fn is_ok(&self) -> (r: bool)
        ensures
            r == (self.outcome() matches Some(Ok(_))),
    {
        match self.query() {
            Poll::Pending => false,
            Poll::Ready(result) => result.is_ok(),
        }
    }

    /// The asset, if it is loaded.
    pub fn get(&self) -> (r: Option<&A>)
        ensures
            match self.outcome() {
                Some(Ok(a)) => r == Some(&a),
                _ => r is None,
            },
    {
        match self.query() {
            Poll::Ready(Ok(asset)) => Some(asset),
            _ => None,
        }
    }

    /// Sets the outcome, which must not be set yet; returns the wakers to wake,
    /// every one that polled the handle, and forgets them.
    pub fn set(&mut self, result: Result<A, Error>) -> (wake: Vec<u64>)
        requires
            old(self).outcome() is None,
        ensures
            final(self).outcome() == Some(result),
            wake@ == old(self).wakers(),
            final(self).wakers().len() == 0,
    {
        self.outcome = Some(result);
        let mut wake: Vec<u64> = Vec::new();
        std::mem::swap(&mut wake, &mut self.wakers);
        wake
    }

    /// Polls the handle: a clone of the outcome once it is set; otherwise the
    /// waker is registered, once, and the handle is pending.
    pub fn poll(&mut self, waker: u64) -> (r: Poll<Result<A, Error>>)
        ensures
            final(self).outcome() == old(self).outcome(),
            match old(self).outcome() {
                Some(o) => final(self).wakers() == old(self).wakers() && (r matches Poll::Ready(ro)
                    && match (o, ro) {
                    (Ok(a), Ok(b)) => cloned(a, b),
                    (Err(e), Err(f)) => error_view(f) == error_view(e),
                    _ => false,
                }),
                None => r is Pending && final(self).wakers() == with_registered(old(self).wakers(), waker),
            },
    {
        match &self.outcome {
            Some(Ok(a)) => {
                return Poll::Ready(Ok(a.clone()));
            },
            Some(Err(e)) => {
                return Poll::Ready(Err(e.clone()));
            },
            None => {},
        }
        if !contains_waker(&self.wakers, waker) {
            self.wakers.push(waker);
        }
        Poll::Pending
    }
}

/// Whether `waker` is among `wakers`.
fn contains_waker(wakers: &Vec<u64>, waker: u64) -> (r: bool)
    ensures
        r == wakers@.contains(waker),
{
    let mut i: usize = 0;
    while i < wakers.len()
        invariant
            i <= wakers@.len(),
            forall|j: int| 0 <= j < i ==> wakers@[j] != waker,
        decreases wakers.len() - i,
    {
        if wakers[i] == waker {
            assert(wakers@[i as int] == waker);
            return true;
        }
        i = i + 1;
    }
    false
}

/// Wakers after a task with `waker` registers: added unless already there.
pub open spec fn with_registered(ws: Seq<u64>, waker: u64) -> Seq<u64> {
    if ws.contains(waker) {
        ws
    } else {
        ws.push(waker)
    }
}

/// Law: a task that polls while the outcome is pending is among the wakers
/// returned when it is set, and appears there once.
pub proof fn lemma_polled_task_is_woken(ws: Seq<u64>, waker: u64)
    ensures
        with_registered(ws, waker).contains(waker),
        ws.no_duplicates() ==> with_registered(ws, waker).no_duplicates(),
{
    if !ws.contains(waker) {
        assert(ws.push(waker)[ws.len() as int] == waker);
    } else {
    }
}

/// State of a future shared by handles: idle, being polled by one of them,
/// poisoned by a panic while being polled, or complete with its output.
pub enum FutureState<T> {
    Idle,
    Polling,
    Poisoned,
    Complete(T),
}

/// What a handle does when it starts polling a shared future.
pub enum BeginPoll<T> {
    /// The output is ready.
    Ready(T),
    /// Another handle is polling; this one waits to be woken.
    Pending,
    /// This handle polls the future now and reports with `finish_poll`.
    PollFuture,
    /// The future panicked while being polled.
    Poisoned,
}

/// Shared state of a future that handles poll: its state and the wakers of the
/// handles, one slot per handle.
pub struct SharedFuture<T> {
    state: FutureState<T>,
    wakers: Vec<Option<u64>>,
}

impl<T: Clone> SharedFuture<T> {
    pub closed spec fn state(&self) -> FutureState<T> {
        self.state
    }

    pub closed spec fn wakers(&self) -> Seq<Option<u64>> {
        self.wakers@
    }

    /// State of a future that was never polled.
    pub fn new() -> (r: Self)
        ensures
            r.state() is Idle,
            r.wakers().len() == 0,
    {
        SharedFuture { state: FutureState::Idle, wakers: Vec::new() }
    }

    /// A handle starts a poll: its waker goes into its slot (a new slot for a
    /// handle that has none yet, whose index is returned); then the output is
    /// reported if the future is complete, the handle waits if another one is
    /// polling, and otherwise this handle polls the future.
    pub fn begin_poll(&mut self, slot: Option<usize>, waker: u64) -> (r: (BeginPoll<T>, usize))
        requires
            !(old(self).state() is Complete) ==> (slot matches Some(i) ==> i < old(self).wakers().len()),
        ensures
            keeps_output(old(self).state(), final(self).state()),
            final(self).state() == state_after_begin(old(self).state()),
            r.0 is PollFuture <==> starts_polling(old(self).state()),
            match old(self).state() {
                FutureState::Complete(t) => final(self).state() == old(self).state() && final(self).wakers() == old(self).wakers() && (r.0 matches BeginPoll::Ready(rt) && cloned(
                    t,
                    rt,
                )) && r.1 == (match slot {
                    Some(i) => i,
                    None => 0,
                }),
                _ => {
                    &&& final(self).wakers() == (match slot {
                        Some(i) => old(self).wakers().update(i as int, Some(waker)),
                        None => old(self).wakers().push(Some(waker)),
                    })
                    &&& r.1 == (match slot {
                        Some(i) => i as int,
                        None => old(self).wakers().len() as int,
                    })
                    &&& r.1 < final(self).wakers().len()
                    &&& match old(self).state() {
                        FutureState::Idle => final(self).state() is Polling && r.0 is PollFuture,
                        FutureState::Polling => final(self).state() is Polling && r.0 is Pending,
                        _ => final(self).state() is Poisoned && r.0 is Poisoned,
                    }
                },
            },
    {
        if let FutureState::Complete(t) = &self.state {
            let out = t.clone();
            let idx = match slot {
                Some(i) => i,
                None => 0,
            };
            return (BeginPoll::Ready(out), idx);
        }
        let idx = match slot {
            Some(i) => {
                self.wakers.set(i, Some(waker));
                i
            },
            None => {
                self.wakers.push(Some(waker));
                self.wakers.len() - 1
            },
        };
        let r = match self.state {
            FutureState::Idle => {
                self.state = FutureState::Polling;
                BeginPoll::PollFuture
            },
            FutureState::Polling => BeginPoll::Pending,
            _ => BeginPoll::Poisoned,
        };
        (r, idx)
    }

    /// The handle that polled the future reports: still pending (the future
    /// becomes idle again), or ready with its output (the future is complete,
    /// and every registered waker is returned to be woken and forgotten).
    pub fn finish_poll(&mut self, output: Option<T>) -> (wake: Vec<u64>)
        requires
            old(self).state() is Polling,
        ensures
            keeps_output(old(self).state(), final(self).state()),
            match output {
                None => final(self).state() is Idle && final(self).wakers() == old(self).wakers()
                    && wake@.len() == 0,
                Some(t) => final(self).state() == FutureState::Complete(t) && final(self).wakers().len() == 0 && wake@ == registered(old(self).wakers()),
            },
    {
        match output {
            None => {
                self.state = FutureState::Idle;
                Vec::new()
            },
            Some(t) => {
                self.state = FutureState::Complete(t);
                let wake = registered_wakers(&self.wakers);
                self.wakers = Vec::new();
                wake
            },
        }
    }

    /// The polling handle panicked while polling the future.
    pub fn poison(&mut self)
        requires
            old(self).state() is Polling,
        ensures
            keeps_output(old(self).state(), final(self).state()),
            final(self).state() is Poisoned,
            final(self).wakers() == old(self).wakers(),
    {
        self.state = FutureState::Poisoned;
    }

    /// The future's own waker was woken: every registered waker is returned to
    /// be woken, and its slot is emptied.
    pub fn wake_all(&mut self) -> (wake: Vec<u64>)
        ensures
            keeps_output(old(self).state(), final(self).state()),
            final(self).state() == old(self).state(),
            wake@ == registered(old(self).wakers()),
            final(self).wakers().len() == old(self).wakers().len(),
            forall|i: int| 0 <= i < final(self).wakers().len() ==> #[trigger] final(self).wakers()[i] is None,
    {
        let wake = registered_wakers(&self.wakers);
        let mut i: usize = 0;
        let n = self.wakers.len();
        while i < n
            invariant
                n == self.wakers@.len(),
                n == old(self).wakers@.len(),
                i <= n,
                self.state == old(self).state,
                forall|j: int| 0 <= j < i ==> #[trigger] self.wakers@[j] is None,
            decreases n - i,
        {
            self.wakers.set(i, None);
            i = i + 1;
        }
        wake
    }
}

/// The wakers present in the slots, in slot order.
pub open spec fn registered(slots: Seq<Option<u64>>) -> Seq<u64>
    decreases slots.len(),
{
    if slots.len() == 0 {
        Seq::empty()
    } else {
        match slots.last() {
            Some(w) => registered(slots.drop_last()).push(w),
            None => registered(slots.drop_last()),
        }
    }
}

/// Number of occupied slots.
pub open spec fn occupied_count(slots: Seq<Option<u64>>) -> nat {
    slots.filter(|o: Option<u64>| o is Some).len()
}

/// Law: the wakers returned when a shared future completes, or when its own
/// waker fires, are those of all the occupied slots, in slot order, wherever
/// the empty slots are: the occupied slots with their `Option` taken off, as
/// many as there are occupied slots, and every occupied slot's waker among
/// them.
pub proof fn lemma_registered_are_occupied_slots(slots: Seq<Option<u64>>)
    ensures
        registered(slots) == slots.filter_map(|o: Option<u64>| o),
        registered(slots).len() == occupied_count(slots),
        forall|i: int|
            0 <= i < slots.len() && (#[trigger] slots[i]) is Some ==> registered(slots).contains(
                slots[i]->0,
            ),
        forall|k: int|
            0 <= k < registered(slots).len() ==> slots.contains(Some(#[trigger] registered(slots)[k])),
    decreases slots.len(),
{
    reveal_with_fuel(Seq::filter, 1);
    if slots.len() > 0 {
        let rest = slots.drop_last();
        lemma_registered_are_occupied_slots(rest);
        let pred = |o: Option<u64>| o is Some;
        assert(slots.filter(pred) == {
            let subseq = rest.filter(pred);
            if pred(slots.last()) {
                subseq.push(slots.last())
            } else {
                subseq
            }
        });
        match slots.last() {
            Some(w) => {
                assert(registered(slots) =~= rest.filter_map(|o: Option<u64>| o) + seq![w]);
            },
            None => {},
        }
        assert forall|i: int|
            0 <= i < slots.len() && (#[trigger] slots[i]) is Some implies registered(slots).contains(
                slots[i]->0,
            ) by {
            if i < slots.len() - 1 {
                assert(rest[i] == slots[i]);
                let k = choose|k: int| 0 <= k < registered(rest).len() && registered(rest)[k] == slots[i]->0;
                assert(registered(slots)[k] == slots[i]->0);
            } else {
                assert(registered(slots)[registered(slots).len() - 1] == slots[i]->0);
            }
        }
        assert forall|k: int|
            0 <= k < registered(slots).len() implies slots.contains(Some(#[trigger] registered(slots)[k])) by {
            if k < registered(rest).len() {
                assert(registered(slots)[k] == registered(rest)[k]);
                let i = choose|i: int| 0 <= i < rest.len() && rest[i] == Some(registered(rest)[k]);
                assert(slots[i] == rest[i]);
            } else {
                assert(slots[slots.len() - 1] == Some(registered(slots)[k]));
            }
        }
    } else {
        assert(slots.filter(|o: Option<u64>| o is Some) =~= Seq::<Option<u64>>::empty());
    }
}

fn registered_wakers(slots: &Vec<Option<u64>>) -> (r: Vec<u64>)
    ensures
        r@ == registered(slots@),
{
    let mut r: Vec<u64> = Vec::new();
    let mut i: usize = 0;
    while i < slots.len()
        invariant
            i <= slots@.len(),
            r@ == registered(slots@.take(i as int)),
        decreases slots.len() - i,
    {
        let ghost t = slots@.take(i as int + 1);
        assert(t.drop_last() =~= slots@.take(i as int));
        match slots[i] {
            Some(w) => r.push(w),
            None => {},
        }
        i = i + 1;
    }
    assert(slots@.take(slots@.len() as int) =~= slots@);
    r
}

/// State of a shared future after a handle begins a poll.
pub open spec fn state_after_begin<T>(s: FutureState<T>) -> FutureState<T> {
    match s {
        FutureState::Idle => FutureState::Polling,
        _ => s,
    }
}

/// Whether a handle that begins a poll in state `s` polls the future itself.
pub open spec fn starts_polling<T>(s: FutureState<T>) -> bool {
    s is Idle
}

/// Law: at most one handle polls a shared future at a time: after a handle
/// begins polling, any other that begins before the poll is finished does not
/// poll the future.
pub proof fn lemma_one_poller_at_a_time<T>(s: FutureState<T>)
    requires
        starts_polling(s),
    ensures
        !starts_polling(state_after_begin(s)),
        !starts_polling(state_after_begin(state_after_begin(s))),
{
}

/// A step of a shared future's state that keeps a complete future complete,
/// with the same output.
pub open spec fn keeps_output<T>(s0: FutureState<T>, s1: FutureState<T>) -> bool {
    s0 is Complete ==> s1 == s0
}

/// Law: once a shared future is complete it stays complete with the same
/// output, over any number of steps.
pub proof fn lemma_output_is_final<T>(s0: FutureState<T>, s1: FutureState<T>, s2: FutureState<T>)
    requires
        keeps_output(s0, s1),
        keeps_output(s1, s2),
    ensures
        keeps_output(s0, s2),
{
}

} // verus!
