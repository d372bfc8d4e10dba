//! The dispatcher as a whole: messages are queued from any thread while the worker
//! takes them one by one, waits for barriers, and delivers events to subscribers. Here
//! stands what a flush and a barrier promise to those who queue.

use vstd::prelude::*;

use crate::delivery::{
    begun, prepared_delivery, published, resumed, DeliveryEvent, Progress, RunModel,
    ThreadBindings,
};
use crate::dispatcher::{Delivery, DispatcherMessage};
use crate::worker::{
    flushes_acknowledged, flushes_received, law_flush_waits_for_queued_work,
    law_flushes_are_acknowledged_in_order, law_work_is_done_in_order, work_done, work_received,
    worker_run, worker_step, ActionModel, Received, Work,
};

verus! {

/// What the steps of one delivery come to.
pub struct Replies<E> {
    /// Whether the runtime for transforms and sanitizers is available.
    pub runtime_ready: bool,
    /// What the transformation makes of the event; `None` where it panics.
    pub transformed: Option<E>,
    /// What the sanitizers make of the event.
    pub sanitized: E,
    /// Which subscribers panic, by their position.
    pub panics: spec_fn(int) -> bool,
}

/// The subscribers that are notified from here on, with the event each of them gets,
/// and the thread's bindings at the end.
pub open spec fn notify_from<E, T, S, B, C>(
    progress: Progress<E, T, S, B, C>,
    panics: spec_fn(int) -> bool,
) -> (Seq<(E, B)>, ThreadBindings<C>)
    decreases progress.run.subscribers.len() - progress.run.notified,
{
    if progress.step is Notify && progress.run.notified < progress.run.subscribers.len() {
        let position = progress.step->subscriber as int;
        let next = resumed::<E, T, S, B, C>(
            progress.run,
            progress.thread,
            DeliveryEvent::Notified { panicked: panics(position) },
        );
        let (later, thread) = notify_from(next, panics);
        (seq![(progress.run.event->0, progress.run.subscribers[position])] + later, thread)
    } else {
        (Seq::empty(), progress.thread)
    }
}

/// One whole delivery: who is notified of what, and the thread's bindings at its end.
pub open spec fn delivered<E, T, S, B, C>(
    thread: ThreadBindings<C>,
    delivery: Delivery<E, T, S, B, C>,
    replies: Replies<E>,
) -> (Seq<(E, B)>, ThreadBindings<C>) {
    notify_from(
        if replies.runtime_ready {
            prepared_delivery(thread, delivery, replies.transformed, replies.sanitized)
        } else {
            begun(thread, delivery, false)
        },
        replies.panics,
    )
}

/// The event that a delivery publishes; `None` where it is dropped, because the runtime
/// is missing or the transformation panics.
pub open spec fn published_event<E, T, S, B, C>(
    delivery: Delivery<E, T, S, B, C>,
    replies: Replies<E>,
) -> Option<E> {
    let event = if delivery.transform is Some {
        replies.transformed
    } else {
        Some(delivery.event)
    };
    if !replies.runtime_ready {
        None
    } else if event is Some && delivery.sanitizers@.len() > 0 {
        Some(replies.sanitized)
    } else {
        event
    }
}

/// Who has to be notified of a delivery: each of its subscribers once, in order, of the
/// published event; nobody where the event is dropped.
pub open spec fn owed<E, T, S, B, C>(
    delivery: Delivery<E, T, S, B, C>,
    replies: Replies<E>,
) -> Seq<(E, B)> {
    match published_event(delivery, replies) {
        Some(event) => delivery.subscribers@.map_values(|subscriber: B| (event, subscriber)),
        None => Seq::empty(),
    }
}

proof fn lemma_notify_the_rest<E, T, S, B, C>(
    run: RunModel<E, S, B, C>,
    thread: ThreadBindings<C>,
    event: E,
    panics: spec_fn(int) -> bool,
)
    requires
        run.event == Some(event),
        0 <= run.notified <= run.subscribers.len() <= usize::MAX,
    ensures
        notify_from(published::<E, T, S, B, C>(run, thread), panics) == (
            run.subscribers.skip(run.notified).map_values(|subscriber: B| (event, subscriber)),
            ThreadBindings { scope_stack: run.previous, in_dispatcher: false },
        ),
    decreases run.subscribers.len() - run.notified,
{
    let rest = run.subscribers.skip(run.notified).map_values(|subscriber: B| (event, subscriber));
    if run.notified < run.subscribers.len() {
        let after = RunModel { notified: run.notified + 1, ..run };
        lemma_notify_the_rest::<E, T, S, B, C>(after, thread, event, panics);
        let later = run.subscribers.skip(run.notified + 1).map_values(
            |subscriber: B| (event, subscriber),
        );
        assert(rest =~= seq![(event, run.subscribers[run.notified])] + later);
    } else {
        assert(rest =~= Seq::<(E, B)>::empty());
    }
}

/// A delivery notifies exactly those it owes, whichever of them panic, and leaves the
/// thread with the scope stack it found.
pub proof fn law_delivery_notifies_everyone_once<E, T, S, B, C>(
    thread: ThreadBindings<C>,
    delivery: Delivery<E, T, S, B, C>,
    replies: Replies<E>,
)
    ensures
        delivered(thread, delivery, replies) == (
            owed(delivery, replies),
            ThreadBindings { scope_stack: thread.scope_stack, in_dispatcher: false },
        ),
{
    broadcast use vstd::std_specs::vec::group_vec_axioms;

    assert(delivery.subscribers@.len() == delivery.subscribers.len());
    if let Some(event) = published_event(delivery, replies) {
        let run = RunModel::<E, S, B, C> {
            previous: thread.scope_stack,
            sanitizers: None,
            subscribers: delivery.subscribers@,
            event: Some(event),
            notified: 0,
        };
        let bound = ThreadBindings {
            scope_stack: Some(delivery.scope_stack),
            in_dispatcher: true,
        };
        lemma_notify_the_rest::<E, T, S, B, C>(run, bound, event, replies.panics);
        assert(run.subscribers.skip(0) =~= run.subscribers);
    }
}

/// Who is notified of what by a sequence of work, and the thread's bindings at its end;
/// the replies are those to the work at each position.
pub open spec fn notified_all<E, T, S, B, C, R>(
    work: Seq<Work<Delivery<E, T, S, B, C>, R>>,
    thread: ThreadBindings<C>,
    replies: spec_fn(int) -> Replies<E>,
) -> (Seq<(E, B)>, ThreadBindings<C>)
    decreases work.len(),
{
    if work.len() == 0 {
        (Seq::empty(), thread)
    } else {
        let (earlier, before) = notified_all(work.drop_last(), thread, replies);
        match work.last() {
            Work::Deliver(delivery) => {
                let (now, after) = delivered(before, delivery, replies(work.len() - 1));
                (earlier + now, after)
            },
            Work::AwaitBarrier(_) => (earlier, before),
        }
    }
}

/// Who has to be notified for a sequence of work.
pub open spec fn owed_all<E, T, S, B, C, R>(
    work: Seq<Work<Delivery<E, T, S, B, C>, R>>,
    replies: spec_fn(int) -> Replies<E>,
) -> Seq<(E, B)>
    decreases work.len(),
{
    if work.len() == 0 {
        Seq::empty()
    } else {
        let earlier = owed_all(work.drop_last(), replies);
        match work.last() {
            Work::Deliver(delivery) => earlier + owed(delivery, replies(work.len() - 1)),
            Work::AwaitBarrier(_) => earlier,
        }
    }
}

/// A sequence of work notifies exactly those it owes, in order, and leaves the thread as
/// it was.
pub proof fn law_work_notifies_everyone_once<E, T, S, B, C, R>(
    work: Seq<Work<Delivery<E, T, S, B, C>, R>>,
    thread: ThreadBindings<C>,
    replies: spec_fn(int) -> Replies<E>,
)
    requires
        !thread.in_dispatcher,
    ensures
        notified_all(work, thread, replies) == (owed_all(work, replies), thread),
    decreases work.len(),
{
    if work.len() > 0 {
        law_work_notifies_everyone_once(work.drop_last(), thread, replies);
        if let Work::Deliver(delivery) = work.last() {
            law_delivery_notifies_everyone_once(thread, delivery, replies(work.len() - 1));
        }
    }
}

/// The dispatcher between two events: everything that was ever queued, how much of it
/// the worker has taken, what the worker found each time it looked, the barrier it waits
/// for, and how many barriers have been released.
pub struct DispatcherRun<D, F, R> {
    /// Every message that was queued, in order.
    pub sent: Seq<DispatcherMessage<D, F, R>>,
    /// How many of them the worker has taken.
    pub taken: int,
    /// What the worker found.
    pub looks: Seq<Received<D, F, R>>,
    /// The barrier that the worker waits for.
    pub waiting: Option<R>,
    /// How many barriers were released.
    pub released: int,
}

/// What happens to the dispatcher.
pub enum DispatcherEvent<D, F, R> {
    /// Someone queues a message.
    Queue(DispatcherMessage<D, F, R>),
    /// The worker, unless it waits for a barrier, looks at its queue and acts.
    Look,
    /// The barrier that the worker waits for is released: signalled, or its signal is
    /// dropped.
    Release,
}

impl<D, F, R> DispatcherRun<D, F, R> {
    /// What the worker has done so far.
    pub open spec fn actions(self) -> Seq<ActionModel<D, F, R>> {
        worker_run(self.looks).1
    }

    /// What the worker finds when it looks at its queue now.
    pub open spec fn next_look(self) -> Received<D, F, R> {
        if self.taken < self.sent.len() {
            Received::Message(self.sent[self.taken])
        } else {
            Received::Empty
        }
    }

    /// The dispatcher after one event.
    pub open spec fn after(self, event: DispatcherEvent<D, F, R>) -> Self {
        match event {
            DispatcherEvent::Queue(message) => DispatcherRun {
                sent: self.sent.push(message),
                ..self
            },
            DispatcherEvent::Release => if self.waiting is Some {
                DispatcherRun { waiting: None, released: self.released + 1, ..self }
            } else {
                self
            },
            DispatcherEvent::Look => if self.waiting is Some {
                self
            } else {
                let action = worker_step(worker_run(self.looks).0, self.next_look()).1;
                DispatcherRun {
                    taken: if self.next_look() is Message {
                        self.taken + 1
                    } else {
                        self.taken
                    },
                    looks: self.looks.push(self.next_look()),
                    waiting: match action {
                        ActionModel::AwaitBarrier(done) => Some(done),
                        _ => None,
                    },
                    ..self
                }
            },
        }
    }

    /// Whether the flush at this position of the queue has been acknowledged.
    pub open spec fn flush_acknowledged(self, position: int) -> bool {
        flushes_acknowledged(self.actions()).len() > flushes_queued(self.sent.take(position)).len()
    }

    /// Whether the barrier at this position of the queue has been released.
    pub open spec fn barrier_released(self, position: int) -> bool {
        barriers_queued(self.sent.take(position + 1)) <= self.released
    }
}

/// The dispatcher after a sequence of events, from its start.
pub open spec fn dispatcher_run<D, F, R>(events: Seq<DispatcherEvent<D, F, R>>) -> DispatcherRun<
    D,
    F,
    R,
>
    decreases events.len(),
{
    if events.len() == 0 {
        DispatcherRun {
            sent: Seq::empty(),
            taken: 0,
            looks: Seq::empty(),
            waiting: None,
            released: 0,
        }
    } else {
        dispatcher_run(events.drop_last()).after(events.last())
    }
}

/// The deliveries and barriers among queued messages, in order.
pub open spec fn work_queued<D, F, R>(sent: Seq<DispatcherMessage<D, F, R>>) -> Seq<Work<D, R>>
    decreases sent.len(),
{
    if sent.len() == 0 {
        Seq::empty()
    } else {
        let earlier = work_queued(sent.drop_last());
        match sent.last() {
            DispatcherMessage::Deliver(delivery) => earlier.push(Work::Deliver(delivery)),
            DispatcherMessage::Barrier { done } => earlier.push(Work::AwaitBarrier(done)),
            DispatcherMessage::Flush { .. } => earlier,
        }
    }
}

/// The flushes among queued messages, in order.
pub open spec fn flushes_queued<D, F, R>(sent: Seq<DispatcherMessage<D, F, R>>) -> Seq<F>
    decreases sent.len(),
{
    if sent.len() == 0 {
        Seq::empty()
    } else {
        let earlier = flushes_queued(sent.drop_last());
        match sent.last() {
            DispatcherMessage::Flush { done } => earlier.push(done),
            _ => earlier,
        }
    }
}

/// How many barriers are among queued messages.
pub open spec fn barriers_queued<D, F, R>(sent: Seq<DispatcherMessage<D, F, R>>) -> int
    decreases sent.len(),
{
    if sent.len() == 0 {
        0
    } else {
        barriers_queued(sent.drop_last()) + if sent.last() is Barrier {
            1int
        } else {
            0int
        }
    }
}

proof fn lemma_counts_grow<D, F, R>(sent: Seq<DispatcherMessage<D, F, R>>, i: int, j: int)
    requires
        0 <= i <= j <= sent.len(),
    ensures
        barriers_queued(sent.take(i)) <= barriers_queued(sent.take(j)),
        flushes_queued(sent.take(i)).len() <= flushes_queued(sent.take(j)).len(),
    decreases j - i,
{
    if i < j {
        lemma_counts_grow(sent, i, j - 1);
        assert(sent.take(j).drop_last() =~= sent.take(j - 1));
    }
}

/// What holds of the dispatcher at every moment.
pub open spec fn consistent<D, F, R>(run: DispatcherRun<D, F, R>) -> bool {
    &&& 0 <= run.taken <= run.sent.len()
    &&& work_received(run.looks) == work_queued(run.sent.take(run.taken))
    &&& flushes_received(run.looks) == flushes_queued(run.sent.take(run.taken))
    &&& run.waiting is Some ==> run.taken > 0 && run.sent[run.taken - 1] is Barrier
    &&& run.released + if run.waiting is Some {
        1int
    } else {
        0int
    } == barriers_queued(run.sent.take(run.taken))
}

/// At every moment, what the worker has taken is the beginning of what was queued, in
/// order; and each barrier it has taken is released, but for the one it waits for.
pub proof fn law_dispatcher_stays_consistent<D, F, R>(events: Seq<DispatcherEvent<D, F, R>>)
    ensures
        consistent(dispatcher_run(events)),
    decreases events.len(),
{
    let run = dispatcher_run(events);
    if events.len() == 0 {
        assert(run.sent.take(0) =~= Seq::<DispatcherMessage<D, F, R>>::empty());
    } else {
        law_dispatcher_stays_consistent(events.drop_last());
        let before = dispatcher_run(events.drop_last());
        match events.last() {
            DispatcherEvent::Queue(_) => {
                assert(run.sent.take(run.taken) =~= before.sent.take(before.taken));
            },
            DispatcherEvent::Release => {},
            DispatcherEvent::Look => {
                if before.waiting is None {
                    assert(run.looks.drop_last() =~= before.looks);
                    if before.taken < before.sent.len() {
                        assert(run.sent.take(run.taken).drop_last() =~= before.sent.take(
                            before.taken,
                        ));
                        assert(run.sent.take(run.taken).last() == before.sent[before.taken]);
                    }
                }
            },
        }
    }
}

/// A barrier holds back everything queued behind it: as long as it is not released, the
/// worker has taken nothing beyond it. While the worker waits, only a release lets it
/// go on.
pub proof fn law_nothing_behind_a_barrier_is_handled<D, F, R>(
    events: Seq<DispatcherEvent<D, F, R>>,
    barrier: int,
)
    requires
        0 <= barrier < dispatcher_run(events).sent.len(),
        dispatcher_run(events).sent[barrier] is Barrier,
        !dispatcher_run(events).barrier_released(barrier),
    ensures
        dispatcher_run(events).taken <= barrier + 1,
        work_done(dispatcher_run(events).actions()) == work_queued(
            dispatcher_run(events).sent.take(dispatcher_run(events).taken),
        ),
        forall|event: DispatcherEvent<D, F, R>|
            dispatcher_run(events).waiting is Some && !(event is Release)
                ==> (#[trigger] dispatcher_run(events).after(event)).actions() == dispatcher_run(
                events,
            ).actions(),
{
    let run = dispatcher_run(events);
    law_dispatcher_stays_consistent(events);
    law_work_is_done_in_order(run.looks);
    if run.taken > barrier + 1 {
        if run.waiting is Some {
            lemma_counts_grow(run.sent, barrier + 1, run.taken - 1);
            assert(run.sent.take(run.taken).drop_last() =~= run.sent.take(run.taken - 1));
        } else {
            lemma_counts_grow(run.sent, barrier + 1, run.taken);
        }
    }
}

/// When the worker acknowledges flushes, everything queued until then has been handled,
/// also what was queued while the flushes waited: every barrier is released, every
/// subscriber of every event that was not dropped has been notified once and in order,
/// and every flush is acknowledged.
pub proof fn law_acknowledgement_finds_everything_handled<E, T, S, B, C, F, R>(
    events: Seq<DispatcherEvent<Delivery<E, T, S, B, C>, F, R>>,
    thread: ThreadBindings<C>,
    replies: spec_fn(int) -> Replies<E>,
)
    requires
        events.len() > 0,
        dispatcher_run(events.drop_last()).looks.len() < dispatcher_run(events).looks.len(),
        dispatcher_run(events).actions().last() is Acknowledge,
        !thread.in_dispatcher,
    ensures
        ({
            let run = dispatcher_run(events);
            &&& run.taken == run.sent.len()
            &&& run.released == barriers_queued(run.sent)
            &&& flushes_acknowledged(run.actions()) == flushes_queued(run.sent)
            &&& notified_all(work_done(run.actions().drop_last()), thread, replies) == (
                owed_all(work_queued(run.sent), replies),
                thread,
            )
        }),
{
    let run = dispatcher_run(events);
    law_dispatcher_stays_consistent(events);
    law_flush_waits_for_queued_work(run.looks);
    assert(run.sent.take(run.taken) =~= run.sent);
    law_work_notifies_everyone_once(work_done(run.actions().drop_last()), thread, replies);
    let actions = run.actions();
    assert(flushes_acknowledged(actions) =~= flushes_acknowledged(actions.drop_last())
        + actions.last()->Acknowledge_0);
}

proof fn lemma_owed_by_a_beginning<E, T, S, B, C, F, R>(
    sent: Seq<DispatcherMessage<Delivery<E, T, S, B, C>, F, R>>,
    i: int,
    j: int,
    replies: spec_fn(int) -> Replies<E>,
)
    requires
        0 <= i <= j <= sent.len(),
    ensures
        owed_all(work_queued(sent.take(i)), replies).is_prefix_of(
            owed_all(work_queued(sent.take(j)), replies),
        ),
    decreases j - i,
{
    if i < j {
        lemma_owed_by_a_beginning(sent, i, j - 1, replies);
        let earlier = work_queued(sent.take(j - 1));
        let longer = work_queued(sent.take(j));
        assert(sent.take(j).drop_last() =~= sent.take(j - 1));
        if longer.len() > earlier.len() {
            assert(longer.drop_last() =~= earlier);
        }
    }
}

/// A flush that has been acknowledged waited for everything queued before it: every
/// barrier before it is released, and every subscriber of every event before it that was
/// not dropped has been notified, once and in order.
pub proof fn law_flush_returns_after_every_subscriber<E, T, S, B, C, F, R>(
    events: Seq<DispatcherEvent<Delivery<E, T, S, B, C>, F, R>>,
    flush: int,
    thread: ThreadBindings<C>,
    replies: spec_fn(int) -> Replies<E>,
)
    requires
        0 <= flush < dispatcher_run(events).sent.len(),
        dispatcher_run(events).sent[flush] is Flush,
        dispatcher_run(events).flush_acknowledged(flush),
        !thread.in_dispatcher,
    ensures
        ({
            let run = dispatcher_run(events);
            &&& run.taken > flush
            &&& barriers_queued(run.sent.take(flush)) <= run.released
            &&& owed_all(work_queued(run.sent.take(flush)), replies).is_prefix_of(
                notified_all(work_done(run.actions()), thread, replies).0,
            )
        }),
{
    let run = dispatcher_run(events);
    law_dispatcher_stays_consistent(events);
    law_work_is_done_in_order(run.looks);
    law_flushes_are_acknowledged_in_order(run.looks);
    law_work_notifies_everyone_once(work_done(run.actions()), thread, replies);
    assert(flushes_acknowledged(run.actions()).len() <= flushes_received(run.looks).len());
    if run.taken <= flush {
        lemma_counts_grow(run.sent, run.taken, flush);
    }
    lemma_owed_by_a_beginning(run.sent, flush, run.taken, replies);
    if run.waiting is Some {
        lemma_counts_grow(run.sent, flush, run.taken - 1);
        assert(run.sent.take(run.taken).drop_last() =~= run.sent.take(run.taken - 1));
    } else {
        lemma_counts_grow(run.sent, flush, run.taken);
    }
}

/// The dispatcher only ever gets further: what was queued stays queued, and what was
/// taken stays taken.
pub proof fn law_dispatcher_never_goes_back<D, F, R>(
    before: Seq<DispatcherEvent<D, F, R>>,
    after: Seq<DispatcherEvent<D, F, R>>,
)
    ensures
        dispatcher_run(before).sent.is_prefix_of(dispatcher_run(before + after).sent),
        dispatcher_run(before).taken <= dispatcher_run(before + after).taken,
        dispatcher_run(before).released <= dispatcher_run(before + after).released,
    decreases after.len(),
{
    if after.len() == 0 {
        assert(before + after =~= before);
    } else {
        law_dispatcher_never_goes_back(before, after.drop_last());
        assert((before + after).drop_last() =~= before + after.drop_last());
    }
}

/// A flush behind a barrier waits for what is queued before the barrier is released, also
/// where that is queued behind the flush: once the flush is acknowledged, the barrier is
/// released, and every message that was queued while it was not has been handled, with
/// every subscriber owed it notified.
pub proof fn law_event_queued_behind_a_barrier_is_flushed<E, T, S, B, C, F, R>(
    before: Seq<DispatcherEvent<Delivery<E, T, S, B, C>, F, R>>,
    after: Seq<DispatcherEvent<Delivery<E, T, S, B, C>, F, R>>,
    barrier: int,
    flush: int,
    thread: ThreadBindings<C>,
    replies: spec_fn(int) -> Replies<E>,
)
    requires
        0 <= barrier < flush < dispatcher_run(before + after).sent.len(),
        barrier < dispatcher_run(before).sent.len(),
        dispatcher_run(before).sent[barrier] is Barrier,
        !dispatcher_run(before).barrier_released(barrier),
        dispatcher_run(before + after).sent[flush] is Flush,
        dispatcher_run(before + after).flush_acknowledged(flush),
        !thread.in_dispatcher,
    ensures
        dispatcher_run(before + after).barrier_released(barrier),
        dispatcher_run(before + after).taken >= dispatcher_run(before).sent.len(),
        owed_all(work_queued(dispatcher_run(before).sent), replies).is_prefix_of(
            notified_all(work_done(dispatcher_run(before + after).actions()), thread, replies).0,
        ),
{
    let start = dispatcher_run(before);
    let run = dispatcher_run(before + after);
    law_dispatcher_never_goes_back(before, after);
    lemma_acknowledged_flush_took_everything(before, after, barrier, flush);
    law_flush_returns_after_every_subscriber(before + after, flush, thread, replies);
    lemma_counts_grow(run.sent, barrier + 1, flush);
    law_dispatcher_stays_consistent(before + after);
    law_work_is_done_in_order(run.looks);
    law_work_notifies_everyone_once(work_done(run.actions()), thread, replies);
    lemma_owed_by_a_beginning(run.sent, start.sent.len() as int, run.taken, replies);
    assert(run.sent.take(start.sent.len() as int) =~= start.sent);
}

proof fn lemma_acknowledged_flush_took_everything<D, F, R>(
    before: Seq<DispatcherEvent<D, F, R>>,
    after: Seq<DispatcherEvent<D, F, R>>,
    barrier: int,
    flush: int,
)
    requires
        0 <= barrier < flush < dispatcher_run(before + after).sent.len(),
        barrier < dispatcher_run(before).sent.len(),
        dispatcher_run(before).sent[barrier] is Barrier,
        !dispatcher_run(before).barrier_released(barrier),
        dispatcher_run(before + after).flush_acknowledged(flush),
    ensures
        dispatcher_run(before + after).taken >= dispatcher_run(before).sent.len(),
    decreases after.len(),
{
    let run = dispatcher_run(before + after);
    law_dispatcher_stays_consistent(before + after);
    law_flushes_are_acknowledged_in_order(run.looks);
    assert(flushes_acknowledged(run.actions()).len() <= flushes_received(run.looks).len());
    if after.len() == 0 {
        assert(before + after =~= before);
        law_nothing_behind_a_barrier_is_handled(before, barrier);
        lemma_counts_grow(run.sent, run.taken, flush);
    } else {
        assert((before + after).drop_last() =~= before + after.drop_last());
        let earlier = dispatcher_run(before + after.drop_last());
        law_dispatcher_stays_consistent(before + after.drop_last());
        law_dispatcher_never_goes_back(before, after.drop_last());
        law_flushes_are_acknowledged_in_order(earlier.looks);
        match after.last() {
            DispatcherEvent::Queue(_) => {
                if flush < earlier.sent.len() {
                    assert(earlier.sent.take(flush) =~= run.sent.take(flush));
                    lemma_acknowledged_flush_took_everything(
                        before,
                        after.drop_last(),
                        barrier,
                        flush,
                    );
                } else {
                    lemma_counts_grow(run.sent, run.taken, flush);
                }
            },
            DispatcherEvent::Release => {
                lemma_acknowledged_flush_took_everything(before, after.drop_last(), barrier, flush);
            },
            DispatcherEvent::Look => {
                if earlier.flush_acknowledged(flush) {
                    lemma_acknowledged_flush_took_everything(
                        before,
                        after.drop_last(),
                        barrier,
                        flush,
                    );
                } else {
                    assert(run.looks.drop_last() =~= earlier.looks);
                    assert(run.actions().drop_last() =~= earlier.actions());
                    assert(run.actions().last() is Acknowledge);
                    assert(run.taken == run.sent.len());
                }
            },
        }
    }
}

} // verus!
