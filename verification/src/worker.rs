//! The dispatcher's worker: one message at a time, in the order they were
//! queued, with flushes acknowledged once nothing is left before them.

use vstd::prelude::*;

use crate::dispatcher::DispatcherMessage;

verus! {

/// What the worker finds when it looks at its queue.
pub enum Received<D, F, R> {
    /// The oldest queued message.
    Message(DispatcherMessage<D, F, R>),
    /// Nothing is queued at the moment.
    Empty,
    /// Nothing is queued, and nobody can queue anything any more.
    Disconnected,
}

/// What the worker has to do before it looks at its queue again.
pub enum WorkerAction<D, F, R> {
    /// Nothing.
    Continue,
    /// Deliver an event.
    Deliver(D),
    /// Wait until the barrier is released.
    AwaitBarrier(R),
    /// Acknowledge these flushes, in this order.
    Acknowledge(Vec<F>),
    /// End.
    Stop,
}

/// The worker between two looks at its queue.
pub struct DispatcherWorker<F> {
    pending_flushes: Vec<F>,
}

/// The action that `message` asks for by itself.
pub open spec fn message_action<D, F, R>(message: DispatcherMessage<D, F, R>) -> ActionModel<
    D,
    F,
    R,
> {
    match message {
        DispatcherMessage::Deliver(delivery) => ActionModel::Deliver(delivery),
        DispatcherMessage::Flush { done } => ActionModel::Acknowledge(seq![done]),
        DispatcherMessage::Barrier { done } => ActionModel::AwaitBarrier(done),
    }
}

/// A [`WorkerAction`] with its flushes as a sequence.
pub enum ActionModel<D, F, R> {
    /// See [`WorkerAction::Continue`].
    Continue,
    /// See [`WorkerAction::Deliver`].
    Deliver(D),
    /// See [`WorkerAction::AwaitBarrier`].
    AwaitBarrier(R),
    /// See [`WorkerAction::Acknowledge`].
    Acknowledge(Seq<F>),
    /// See [`WorkerAction::Stop`].
    Stop,
}

impl<D, F, R> View for WorkerAction<D, F, R> {
    type V = ActionModel<D, F, R>;

    open spec fn view(&self) -> ActionModel<D, F, R> {
        match self {
            WorkerAction::Continue => ActionModel::Continue,
            WorkerAction::Deliver(delivery) => ActionModel::Deliver(*delivery),
            WorkerAction::AwaitBarrier(done) => ActionModel::AwaitBarrier(*done),
            WorkerAction::Acknowledge(flushes) => ActionModel::Acknowledge(flushes@),
            WorkerAction::Stop => ActionModel::Stop,
        }
    }
}

/// One step of the worker: the flushes that wait for acknowledgement, what the
/// queue held, and what comes of it. While flushes wait, the queue is drained;
/// they are acknowledged as soon as it is found empty.
pub open spec fn worker_step<D, F, R>(pending: Seq<F>, received: Received<D, F, R>) -> (
    Seq<F>,
    ActionModel<D, F, R>,
) {
    match received {
        Received::Message(DispatcherMessage::Flush { done }) => (
            pending.push(done),
            ActionModel::Continue,
        ),
        Received::Message(message) => (pending, message_action(message)),
        Received::Empty => if pending.len() > 0 {
            (Seq::empty(), ActionModel::Acknowledge(pending))
        } else {
            (pending, ActionModel::Continue)
        },
        Received::Disconnected => if pending.len() > 0 {
            (Seq::empty(), ActionModel::Acknowledge(pending))
        } else {
            (pending, ActionModel::Stop)
        },
    }
}

/// Turns a message into the action it asks for by itself.
pub fn handle_message<D, F, R>(message: DispatcherMessage<D, F, R>) -> (action: WorkerAction<
    D,
    F,
    R,
>)
    ensures
        action@ == message_action(message),
{
    match message {
        DispatcherMessage::Deliver(delivery) => WorkerAction::Deliver(delivery),
        DispatcherMessage::Flush { done } => {
            let mut flushes: Vec<F> = Vec::new();
            flushes.push(done);
            assert(flushes@ =~= seq![done]);
            WorkerAction::Acknowledge(flushes)
        },
        DispatcherMessage::Barrier { done } => WorkerAction::AwaitBarrier(done),
    }
}

impl<F> DispatcherWorker<F> {
    /// The flushes that wait for acknowledgement, oldest first.
    pub closed spec fn pending(self) -> Seq<F> {
        self.pending_flushes@
    }

    /// A worker with nothing pending.
    pub fn new() -> (worker: Self)
        ensures
            worker.pending() == Seq::<F>::empty(),
    {
        DispatcherWorker { pending_flushes: Vec::new() }
    }

    /// Whether the worker drains its queue, and so must not block on it.
    pub fn is_draining(&self) -> (draining: bool)
        ensures
            draining == (self.pending().len() > 0),
    {
        !self.pending_flushes.is_empty()
    }

    /// One step while flushes are pending: everything still queued comes first.
    fn drain_pending_messages<D, R>(&mut self, received: Received<D, F, R>) -> (action:
        WorkerAction<D, F, R>)
        requires
            old(self).pending().len() > 0,
        ensures
            (final(self).pending(), action@) == worker_step(old(self).pending(), received),
    {
        match received {
            Received::Message(DispatcherMessage::Flush { done }) => {
                self.pending_flushes.push(done);
                WorkerAction::Continue
            },
            Received::Message(message) => handle_message(message),
            Received::Empty | Received::Disconnected => {
                let mut flushes: Vec<F> = Vec::new();
                flushes.append(&mut self.pending_flushes);
                assert(flushes@ =~= old(self).pending());
                WorkerAction::Acknowledge(flushes)
            },
        }
    }

    /// One step of the worker.
    pub fn run_dispatcher<D, R>(&mut self, received: Received<D, F, R>) -> (action: WorkerAction<
        D,
        F,
        R,
    >)
        ensures
            (final(self).pending(), action@) == worker_step(old(self).pending(), received),
    {
        if self.is_draining() {
            return self.drain_pending_messages(received);
        }
        match received {
            Received::Message(DispatcherMessage::Flush { done }) => {
                self.pending_flushes.push(done);
                WorkerAction::Continue
            },
            Received::Message(message) => handle_message(message),
            Received::Empty => WorkerAction::Continue,
            Received::Disconnected => WorkerAction::Stop,
        }
    }
}

/// The pending flushes and all actions after the worker, with nothing pending,
/// has looked at its queue once for each entry of `queue`.
pub open spec fn worker_run<D, F, R>(queue: Seq<Received<D, F, R>>) -> (
    Seq<F>,
    Seq<ActionModel<D, F, R>>,
)
    decreases queue.len(),
{
    if queue.len() == 0 {
        (Seq::empty(), Seq::empty())
    } else {
        let (pending, actions) = worker_run(queue.drop_last());
        let (after, action) = worker_step(pending, queue.last());
        (after, actions.push(action))
    }
}

/// Work that is not a flush.
pub enum Work<D, R> {
    /// An event to deliver.
    Deliver(D),
    /// A barrier to wait for.
    AwaitBarrier(R),
}

/// The deliveries and barriers that were received, in order.
pub open spec fn work_received<D, F, R>(queue: Seq<Received<D, F, R>>) -> Seq<Work<D, R>>
    decreases queue.len(),
{
    if queue.len() == 0 {
        Seq::empty()
    } else {
        let earlier = work_received(queue.drop_last());
        match queue.last() {
            Received::Message(DispatcherMessage::Deliver(delivery)) => earlier.push(
                Work::Deliver(delivery),
            ),
            Received::Message(DispatcherMessage::Barrier { done }) => earlier.push(
                Work::AwaitBarrier(done),
            ),
            _ => earlier,
        }
    }
}

/// The deliveries and barriers that were acted on, in order.
pub open spec fn work_done<D, F, R>(actions: Seq<ActionModel<D, F, R>>) -> Seq<Work<D, R>>
    decreases actions.len(),
{
    if actions.len() == 0 {
        Seq::empty()
    } else {
        let earlier = work_done(actions.drop_last());
        match actions.last() {
            ActionModel::Deliver(delivery) => earlier.push(Work::Deliver(delivery)),
            ActionModel::AwaitBarrier(done) => earlier.push(Work::AwaitBarrier(done)),
            _ => earlier,
        }
    }
}

/// The flushes that were received, in order.
pub open spec fn flushes_received<D, F, R>(queue: Seq<Received<D, F, R>>) -> Seq<F>
    decreases queue.len(),
{
    if queue.len() == 0 {
        Seq::empty()
    } else {
        let earlier = flushes_received(queue.drop_last());
        match queue.last() {
            Received::Message(DispatcherMessage::Flush { done }) => earlier.push(done),
            _ => earlier,
        }
    }
}

/// The flushes that were acknowledged, in order.
pub open spec fn flushes_acknowledged<D, F, R>(actions: Seq<ActionModel<D, F, R>>) -> Seq<F>
    decreases actions.len(),
{
    if actions.len() == 0 {
        Seq::empty()
    } else {
        let earlier = flushes_acknowledged(actions.drop_last());
        match actions.last() {
            ActionModel::Acknowledge(flushes) => earlier + flushes,
            _ => earlier,
        }
    }
}

/// Queued events are delivered, and barriers waited for, in the order they were
/// queued, each exactly once and as soon as it is received.
pub proof fn law_work_is_done_in_order<D, F, R>(queue: Seq<Received<D, F, R>>)
    ensures
        work_done(worker_run(queue).1) == work_received(queue),
    decreases queue.len(),
{
    if queue.len() > 0 {
        law_work_is_done_in_order(queue.drop_last());
        let actions = worker_run(queue).1;
        assert(actions.drop_last() =~= worker_run(queue.drop_last()).1);
    }
}

/// Every flush is acknowledged at most once and in the order it was queued; what
/// is not acknowledged yet is still pending.
pub proof fn law_flushes_are_acknowledged_in_order<D, F, R>(queue: Seq<Received<D, F, R>>)
    ensures
        flushes_acknowledged(worker_run(queue).1) + worker_run(queue).0 == flushes_received(queue),
    decreases queue.len(),
{
    if queue.len() > 0 {
        law_flushes_are_acknowledged_in_order(queue.drop_last());
        let actions = worker_run(queue).1;
        assert(actions.drop_last() =~= worker_run(queue.drop_last()).1);
        assert(flushes_acknowledged(actions) + worker_run(queue).0 =~= flushes_received(queue));
    } else {
        assert(flushes_acknowledged(worker_run(queue).1) + worker_run(queue).0 =~= flushes_received(
            queue,
        ));
    }
}

/// Once the queue is found empty, every flush received so far is acknowledged.
pub proof fn law_empty_queue_acknowledges_every_flush<D, F, R>(queue: Seq<Received<D, F, R>>)
    requires
        queue.len() > 0,
        queue.last() is Empty || queue.last() is Disconnected,
    ensures
        flushes_acknowledged(worker_run(queue).1) == flushes_received(queue),
{
    law_flushes_are_acknowledged_in_order(queue);
    assert(flushes_acknowledged(worker_run(queue).1) + worker_run(queue).0 =~= flushes_acknowledged(
        worker_run(queue).1,
    ));
}

/// A flush waits for everything queued before it, and for what was queued while
/// it waited: at an acknowledgement the queue is empty, all events and barriers
/// received so far were handled earlier, and the acknowledged flushes are exactly
/// those received since the acknowledgement before.
pub proof fn law_flush_waits_for_queued_work<D, F, R>(queue: Seq<Received<D, F, R>>)
    requires
        queue.len() > 0,
        worker_run(queue).1.last() is Acknowledge,
    ensures
        !(queue.last() is Message),
        work_done(worker_run(queue).1.drop_last()) == work_received(queue),
        flushes_acknowledged(worker_run(queue).1.drop_last())
            + worker_run(queue).1.last()->Acknowledge_0 == flushes_received(queue),
{
    law_work_is_done_in_order(queue.drop_last());
    law_flushes_are_acknowledged_in_order(queue.drop_last());
    let actions = worker_run(queue).1;
    assert(actions.drop_last() =~= worker_run(queue.drop_last()).1);
}

/// The worker ends only when the queue is closed and no flush is left waiting.
pub proof fn law_worker_stops_with_nothing_pending<D, F, R>(queue: Seq<Received<D, F, R>>)
    requires
        queue.len() > 0,
        worker_run(queue).1.last() is Stop,
    ensures
        queue.last() is Disconnected,
        flushes_acknowledged(worker_run(queue).1) == flushes_received(queue),
        work_done(worker_run(queue).1) == work_received(queue),
{
    law_empty_queue_acknowledges_every_flush(queue);
    law_work_is_done_in_order(queue);
}

/// A message asks by itself for what it carries: its very delivery, its very barrier, or
/// the acknowledgement of its one flush.
pub proof fn law_message_asks_for_what_it_carries<D, F, R>(
    message: DispatcherMessage<D, F, R>,
    action: WorkerAction<D, F, R>,
)
    requires
        call_ensures(handle_message::<D, F, R>, (message,), action),
    ensures
        message matches DispatcherMessage::Deliver(delivery) ==> action == WorkerAction::<
            D,
            F,
            R,
        >::Deliver(delivery),
        message matches DispatcherMessage::Barrier { done } ==> action == WorkerAction::<
            D,
            F,
            R,
        >::AwaitBarrier(done),
        message matches DispatcherMessage::Flush { done } ==> (action matches
            WorkerAction::Acknowledge(flushes) && flushes@ == seq![done]),
{
}

/// A worker starts with nothing pending, and drains its queue exactly while a flush is
/// pending.
pub proof fn law_worker_drains_while_flushes_are_pending<F>(
    fresh: DispatcherWorker<F>,
    worker: DispatcherWorker<F>,
    draining: bool,
)
    requires
        call_ensures(DispatcherWorker::<F>::new, (), fresh),
        call_ensures(DispatcherWorker::<F>::is_draining, (&worker,), draining),
    ensures
        fresh.pending().len() == 0,
        draining <==> worker.pending().len() > 0,
{
}

/// The worker delivers the very event it takes and waits for the very barrier, at once and
/// without touching pending flushes. A flush is only put behind those that are pending.
pub proof fn law_worker_acts_on_the_message_it_takes<D, F, R>(
    worker: &mut DispatcherWorker<F>,
    message: DispatcherMessage<D, F, R>,
    action: WorkerAction<D, F, R>,
)
    requires
        call_ensures(
            DispatcherWorker::<F>::run_dispatcher::<D, R>,
            (worker, Received::Message(message)),
            action,
        ),
    ensures
        message matches DispatcherMessage::Deliver(delivery) ==> action == WorkerAction::<
            D,
            F,
            R,
        >::Deliver(delivery) && final(worker).pending() == old(worker).pending(),
        message matches DispatcherMessage::Barrier { done } ==> action == WorkerAction::<
            D,
            F,
            R,
        >::AwaitBarrier(done) && final(worker).pending() == old(worker).pending(),
        message matches DispatcherMessage::Flush { done } ==> action is Continue
            && final(worker).pending() == old(worker).pending().push(done),
{
}

/// The worker acknowledges every pending flush, in order, as soon as it finds nothing left
/// to take; only then is none pending. With none pending it goes on looking, or ends where
/// nobody can queue anything any more.
pub proof fn law_worker_acknowledges_when_nothing_is_left<D, F, R>(
    worker: &mut DispatcherWorker<F>,
    closed: bool,
    action: WorkerAction<D, F, R>,
)
    requires
        call_ensures(
            DispatcherWorker::<F>::run_dispatcher::<D, R>,
            (
                worker,
                if closed {
                    Received::Disconnected
                } else {
                    Received::Empty
                },
            ),
            action,
        ),
    ensures
        final(worker).pending().len() == 0,
        old(worker).pending().len() > 0 ==> (action matches WorkerAction::Acknowledge(flushes)
            && flushes@ == old(worker).pending()),
        old(worker).pending().len() == 0 && closed ==> action is Stop,
        old(worker).pending().len() == 0 && !closed ==> action is Continue,
{
}

} // verus!
