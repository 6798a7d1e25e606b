//! Queues of decoded assets waiting to be built, one per build context type.
//! A context is named by the number the driver gives its type; running the
//! processor with a context hands out, in order, the processes queued for it.
use vstd::prelude::*;
use vstd::hash_map::HashMapWithView;

verus! {

/// The processes queued for a context, in the order they were queued.
pub open spec fn queue_of<P>(queues: Map<u64, Seq<P>>, context: u64) -> Seq<P> {
    if queues.contains_key(context) {
        queues[context]
    } else {
        Seq::empty()
    }
}

/// Queues after `process` is queued for `context`.
pub open spec fn enqueued<P>(queues: Map<u64, Seq<P>>, context: u64, process: P) -> Map<u64, Seq<P>> {
    queues.insert(context, queue_of(queues, context).push(process))
}

/// Queues after the processes of `context` are handed out.
pub open spec fn drained<P>(queues: Map<u64, Seq<P>>, context: u64) -> Map<u64, Seq<P>> {
    if queues.contains_key(context) {
        queues.insert(context, Seq::empty())
    } else {
        queues
    }
}

/// Processes waiting to be built, queued by build context.
#[verifier::reject_recursive_types(P)]
pub struct Processor<P> {
    queues: HashMapWithView<u64, Vec<P>>,
}

impl<P> Processor<P> {
    pub closed spec fn queues(&self) -> Map<u64, Seq<P>> {
        Map::new(|c: u64| self.queues@.contains_key(c), |c: u64| self.queues@[c]@)
    }

    /// No process queued.
    pub fn new() -> (r: Self)
        ensures
            r.queues() == Map::<u64, Seq<P>>::empty(),
    {
        let r = Processor { queues: HashMapWithView::new() };
        assert(r.queues() =~= Map::<u64, Seq<P>>::empty());
        r
    }

    /// Queues `process` for the context type `context`.
    pub fn with_context(&mut self, context: u64, process: P)
        ensures
            final(self).queues() == enqueued(old(self).queues(), context, process),
    {
        let ghost q0 = self.queues();
        let mut queue = match self.queues.remove(&context) {
            Some(q) => q,
            None => Vec::new(),
        };
        assert(queue@ == queue_of(q0, context));
        queue.push(process);
        self.queues.insert(context, queue);
        assert(self.queues() =~= enqueued(q0, context, process));
    }

    /// Hands out the processes queued for the context type `context`, in the
    /// order they were queued; the queue is left empty.
    pub fn run(&mut self, context: u64) -> (r: Vec<P>)
        ensures
            r@ == queue_of(old(self).queues(), context),
            final(self).queues() == drained(old(self).queues(), context),
    {
        let ghost q0 = self.queues();
        match self.queues.remove(&context) {
            Some(q) => {
                self.queues.insert(context, Vec::new());
                assert(self.queues() =~= drained(q0, context));
                q
            },
            None => {
                assert(self.queues() =~= q0);
                Vec::new()
            },
        }
    }
}

/// Law: processes are handed out in the order they were queued for their
/// context, and queuing for one context leaves the others as they were.
pub proof fn lemma_processes_in_order<P>(queues: Map<u64, Seq<P>>, context: u64, first: P, second: P, other: u64)
    requires
        other != context,
    ensures
        queue_of(enqueued(enqueued(queues, context, first), context, second), context) == queue_of(
            queues,
            context,
        ).push(first).push(second),
        queue_of(enqueued(queues, context, first), other) == queue_of(queues, other),
        queue_of(drained(enqueued(queues, context, first), context), context).len() == 0,
{
}

} // verus!
