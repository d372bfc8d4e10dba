//! The sending side of subscriber delivery: what is queued for the dispatcher, what
//! comes of queuing it, and how a flush waits.

use vstd::prelude::*;

use crate::error::{
    internal, internal_error, internal_message, outcome, FlowError, FlowErrorModel, FlowResult,
};

verus! {

/// An event on its way to subscribers, with the steps it goes through first.
pub struct Delivery<E, T, S, B, C> {
    /// The event snapshot.
    pub event: E,
    /// Transformation applied before sanitizing.
    pub transform: Option<T>,
    /// Sanitizers, applied one after another.
    pub sanitizers: Vec<S>,
    /// Subscribers to notify.
    pub subscribers: Vec<B>,
    /// Scope stack that is current while the event is delivered.
    pub scope_stack: C,
}

/// What can be queued for the dispatcher.
pub enum DispatcherMessage<D, F, R> {
    /// An event to deliver.
    Deliver(D),
    /// A request to be told, through `done`, that everything queued before has
    /// been handled.
    Flush {
        /// Where to acknowledge.
        done: F,
    },
    /// A place held for work that will queue a publication later.
    Barrier {
        /// Signals that the publication has been queued.
        done: R,
    },
}

/// Whether an event with these subscribers has to be queued at all: without any, there
/// is nothing to snapshot.
pub fn has_listeners<B>(subscribers: &[B]) -> (listeners: bool)
    ensures
        listeners == (subscribers@.len() > 0),
{
    subscribers.len() > 0
}

/// The delivery of a plain event, or `None` where nobody listens and nothing
/// needs to be queued.
pub fn dispatch_event<E, T, S, B, C>(
    event: E,
    subscribers: Vec<B>,
    scope_stack: C,
) -> (delivery: Option<Delivery<E, T, S, B, C>>)
    ensures
        delivery is None <==> subscribers@.len() == 0,
        delivery matches Some(delivery) ==> {
            &&& delivery.event == event
            &&& delivery.transform is None
            &&& delivery.sanitizers@.len() == 0
            &&& delivery.subscribers == subscribers
            &&& delivery.scope_stack == scope_stack
        },
{
    if !has_listeners(subscribers.as_slice()) {
        return None;
    }
    Some(Delivery { event, transform: None, sanitizers: Vec::new(), subscribers, scope_stack })
}

/// The delivery of an event that is sanitized first, or `None` where nobody
/// listens and nothing needs to be queued.
pub fn dispatch_sanitized_event<E, T, S, B, C>(
    event: E,
    sanitizers: Vec<S>,
    subscribers: Vec<B>,
    scope_stack: C,
) -> (delivery: Option<Delivery<E, T, S, B, C>>)
    ensures
        delivery is None <==> subscribers@.len() == 0,
        delivery matches Some(delivery) ==> {
            &&& delivery.event == event
            &&& delivery.transform is None
            &&& delivery.sanitizers == sanitizers
            &&& delivery.subscribers == subscribers
            &&& delivery.scope_stack == scope_stack
        },
{
    if !has_listeners(subscribers.as_slice()) {
        return None;
    }
    Some(Delivery { event, transform: None, sanitizers, subscribers, scope_stack })
}

/// The delivery of an event that is transformed and then sanitized. It is queued
/// even where nobody listens, so that the transformation runs.
pub fn dispatch_transformed_event<E, T, S, B, C>(
    event: E,
    transform: T,
    sanitizers: Vec<S>,
    subscribers: Vec<B>,
    scope_stack: C,
) -> (delivery: Delivery<E, T, S, B, C>)
    ensures
        delivery.event == event,
        delivery.transform == Some(transform),
        delivery.sanitizers == sanitizers,
        delivery.subscribers == subscribers,
        delivery.scope_stack == scope_stack,
{
    Delivery { event, transform: Some(transform), sanitizers, subscribers, scope_stack }
}

/// Claims the right to log a failure: granted the first time only.
pub fn log_once(logged: &mut bool) -> (granted: bool)
    ensures
        granted == !*old(logged),
        *final(logged),
{
    let granted = !*logged;
    *logged = true;
    granted
}

/// The sending side of the dispatcher: how its one start went, and whether a
/// failed start has been logged.
pub struct Dispatcher<X> {
    sender: Option<Result<X, String>>,
    failure_logged: bool,
}

/// What became of a queued event, and what is worth logging about it.
#[derive(Debug, Clone, Copy, PartialEq, Eq, Structural)]
pub enum DispatchReport {
    /// The event is queued.
    Queued,
    /// The event was dropped because the dispatcher has stopped: log it.
    Disconnected,
    /// The event was dropped because the dispatcher failed to start: log it.
    StartFailed,
    /// The event was dropped because of a failed start that was logged before.
    StartFailedBefore,
}

/// What dispatching an event returns: true where the event is queued, or where
/// there was nothing to queue.
pub fn dispatch_accepted(report: Option<DispatchReport>) -> (accepted: bool)
    ensures
        accepted == (report matches Some(report) ==> report == DispatchReport::Queued),
{
    match report {
        Some(DispatchReport::Queued) | None => true,
        _ => false,
    }
}

/// What becomes of a message: whether a failed start is logged by then, and the
/// report. A failed start is worth logging the first time only.
pub open spec fn reported(running: bool, logged: bool, sent: bool) -> (bool, DispatchReport) {
    if running && sent {
        (logged, DispatchReport::Queued)
    } else if running {
        (logged, DispatchReport::Disconnected)
    } else if logged {
        (true, DispatchReport::StartFailedBefore)
    } else {
        (true, DispatchReport::StartFailed)
    }
}

impl<X> Dispatcher<X> {
    /// The outcome of the start, once there was one.
    pub closed spec fn start_result(self) -> Option<Result<X, String>> {
        self.sender
    }

    /// Whether a failed start has been logged.
    pub closed spec fn start_failure_logged(self) -> bool {
        self.failure_logged
    }

    /// A dispatcher that was never started.
    pub fn new() -> (dispatcher: Self)
        ensures
            dispatcher.start_result() is None,
            !dispatcher.start_failure_logged(),
    {
        Dispatcher { sender: None, failure_logged: false }
    }

    /// Whether there was an attempt to start the dispatcher.
    pub fn is_started(&self) -> (started: bool)
        ensures
            started == self.start_result() is Some,
    {
        self.sender.is_some()
    }

    /// Records how the start went. Only the first attempt counts.
    pub fn start(&mut self, result: Result<X, String>)
        ensures
            final(self).start_result() == match old(self).start_result() {
                Some(first) => Some(first),
                None => Some(result),
            },
            final(self).start_failure_logged() == old(self).start_failure_logged(),
    {
        if self.sender.is_none() {
            self.sender = Some(result);
        }
    }

    /// The sender to queue messages with, or why the start failed; `None` before
    /// the start.
    pub fn dispatcher_sender(&self) -> (sender: Option<&Result<X, String>>)
        ensures
            match self.start_result() {
                Some(started) => sender == Some(&started),
                None => sender is None,
            },
    {
        self.sender.as_ref()
    }

    /// Reports on a message that the dispatcher was asked to take: `sent` tells
    /// whether its channel accepted the message.
    pub fn send_dispatch_message(&mut self, sent: bool) -> (report: DispatchReport)
        requires
            old(self).start_result() is Some,
        ensures
            final(self).start_result() == old(self).start_result(),
            (final(self).start_failure_logged(), report) == reported(
                old(self).start_result()->0 is Ok,
                old(self).start_failure_logged(),
                sent,
            ),
    {
        let running = match self.dispatcher_sender() {
            Some(Ok(_)) => true,
            _ => false,
        };
        if running {
            if sent {
                DispatchReport::Queued
            } else {
                DispatchReport::Disconnected
            }
        } else if log_once(&mut self.failure_logged) {
            DispatchReport::StartFailed
        } else {
            DispatchReport::StartFailedBefore
        }
    }
}

/// Hands out the signal that releases a barrier, provided the dispatcher runs
/// and took the barrier.
pub fn register_async_publication<X, P>(dispatcher: &Dispatcher<X>, sent: bool, done: P) -> (signal:
    Option<P>)
    ensures
        signal == match dispatcher.start_result() {
            Some(Ok(_)) => if sent {
                Some(done)
            } else {
                None
            },
            _ => None,
        },
{
    match dispatcher.dispatcher_sender() {
        Some(Ok(_)) => if sent {
            Some(done)
        } else {
            None
        },
        _ => None,
    }
}

/// How a flush goes on.
pub enum FlushStep<'a, X> {
    /// The flush is over.
    Return(FlowResult<()>),
    /// A flush message has to be queued with this sender and waited for.
    Queue(&'a X),
}

/// Begins a flush. From inside a dispatcher callback, or where nothing was ever
/// dispatched, there is nothing to wait for.
pub fn flush_subscribers<X>(dispatcher: &Dispatcher<X>, in_dispatcher: bool) -> (step: FlushStep<
    '_,
    X,
>)
    ensures
        match dispatcher.start_result() {
            Some(Ok(running)) if !in_dispatcher => step matches FlushStep::Queue(sender) && *sender
                == running,
            Some(Err(error)) if !in_dispatcher => step matches FlushStep::Return(result) && outcome(
                result,
            ) == Err::<(), FlowErrorModel>(FlowErrorModel::Internal(error@)),
            _ => step matches FlushStep::Return(result) && result is Ok,
        },
{
    if in_dispatcher {
        return FlushStep::Return(Ok(()));
    }
    match dispatcher.dispatcher_sender() {
        None => FlushStep::Return(Ok(())),
        Some(Err(error)) => FlushStep::Return(Err(internal_message(error.as_str()))),
        Some(Ok(running)) => FlushStep::Queue(running),
    }
}

/// What came of a queued flush.
pub enum FlushOutcome {
    /// The flush message could not be queued, for the given reason.
    NotQueued(String),
    /// The acknowledgement was lost, for the given reason.
    NotAcknowledged(String),
    /// Everything queued before was handled.
    Acknowledged,
}

/// The result of a flush that was queued.
pub fn finish_flush(flush: FlushOutcome) -> (result: FlowResult<()>)
    ensures
        outcome(result) == match flush {
            FlushOutcome::NotQueued(error) => Err(
                internal("failed to queue subscriber flush: "@, error@),
            ),
            FlushOutcome::NotAcknowledged(error) => Err(
                internal("subscriber flush failed: "@, error@),
            ),
            FlushOutcome::Acknowledged => Ok(()),
        },
{
    match flush {
        FlushOutcome::NotQueued(error) => Err(
            internal_error("failed to queue subscriber flush: ", error.as_str()),
        ),
        FlushOutcome::NotAcknowledged(error) => Err(
            internal_error("subscriber flush failed: ", error.as_str()),
        ),
        FlushOutcome::Acknowledged => Ok(()),
    }
}

/// The reports on a sequence of messages, each with whether its channel accepted
/// it, and whether a failed start is logged by then.
pub open spec fn reported_all(running: bool, sent: Seq<bool>) -> (bool, Seq<DispatchReport>)
    decreases sent.len(),
{
    if sent.len() == 0 {
        (false, Seq::empty())
    } else {
        let (logged, reports) = reported_all(running, sent.drop_last());
        let (after, report) = reported(running, logged, sent.last());
        (after, reports.push(report))
    }
}

/// A running dispatcher takes exactly the messages that its channel accepts. One
/// that failed to start takes none, and only the first message has that logged.
pub proof fn law_failed_start_is_logged_once(running: bool, sent: Seq<bool>)
    ensures
        reported_all(running, sent).1.len() == sent.len(),
        reported_all(running, sent).0 == (!running && sent.len() > 0),
        forall|i: int|
            #![trigger reported_all(running, sent).1[i]]
            0 <= i < sent.len() ==> reported_all(running, sent).1[i] == if running {
                if sent[i] {
                    DispatchReport::Queued
                } else {
                    DispatchReport::Disconnected
                }
            } else if i == 0 {
                DispatchReport::StartFailed
            } else {
                DispatchReport::StartFailedBefore
            },
    decreases sent.len(),
{
    if sent.len() > 0 {
        let earlier = sent.drop_last();
        law_failed_start_is_logged_once(running, earlier);
        let before = reported_all(running, earlier).1;
        let after = reported_all(running, sent).1;
        assert forall|i: int| 0 <= i < earlier.len() implies #[trigger] after[i] == before[i] by {}
    }
}

/// An event has listeners exactly where it has a subscriber.
pub proof fn law_any_subscriber_listens<B>(subscribers: &[B], listeners: bool)
    requires
        call_ensures(has_listeners::<B>, (subscribers,), listeners),
    ensures
        listeners <==> subscribers@.len() > 0,
{
}

/// A plain or sanitized event is queued exactly where somebody listens, and a transformed
/// one always. What is queued is the very event, with all its subscribers and sanitizers,
/// its transformation and its scope stack, and nothing else.
pub proof fn law_event_is_queued_whole<E, T, S, B, C>(
    event: E,
    transform: T,
    sanitizers: Vec<S>,
    subscribers: Vec<B>,
    scope_stack: C,
    plain: Option<Delivery<E, T, S, B, C>>,
    sanitized: Option<Delivery<E, T, S, B, C>>,
    transformed: Delivery<E, T, S, B, C>,
)
    requires
        call_ensures(dispatch_event::<E, T, S, B, C>, (event, subscribers, scope_stack), plain),
        call_ensures(
            dispatch_sanitized_event::<E, T, S, B, C>,
            (event, sanitizers, subscribers, scope_stack),
            sanitized,
        ),
        call_ensures(
            dispatch_transformed_event::<E, T, S, B, C>,
            (event, transform, sanitizers, subscribers, scope_stack),
            transformed,
        ),
    ensures
        plain is Some <==> subscribers@.len() > 0,
        sanitized is Some <==> subscribers@.len() > 0,
        plain matches Some(delivery) ==> delivery.event == event && delivery.transform is None
            && delivery.sanitizers@.len() == 0 && delivery.subscribers == subscribers
            && delivery.scope_stack == scope_stack,
        sanitized matches Some(delivery) ==> delivery == (Delivery::<E, T, S, B, C> {
            event,
            transform: None,
            sanitizers,
            subscribers,
            scope_stack,
        }),
        transformed == (Delivery::<E, T, S, B, C> {
            event,
            transform: Some(transform),
            sanitizers,
            subscribers,
            scope_stack,
        }),
{
}

/// The right to log is granted once: the first claim gets it, and a second one does not.
pub proof fn law_logging_is_granted_once(
    logged: &mut bool,
    first: bool,
    logged_again: &mut bool,
    second: bool,
)
    requires
        call_ensures(log_once, (logged,), first),
        call_ensures(log_once, (logged_again,), second),
        *old(logged_again) == *final(logged),
    ensures
        first <==> !*old(logged),
        !second,
        *final(logged) && *final(logged_again),
{
}

/// Dispatching is refused exactly where an event was dropped: an event that is queued, and
/// one that nobody listens to, are both accepted.
pub proof fn law_only_dropped_events_are_refused(
    report: DispatchReport,
    accepted: bool,
    nothing_queued: bool,
)
    requires
        call_ensures(dispatch_accepted, (Some(report),), accepted),
        call_ensures(dispatch_accepted, (None,), nothing_queued),
    ensures
        accepted <==> report == DispatchReport::Queued,
        nothing_queued,
{
}

/// A dispatcher starts once: the first outcome is kept, whatever comes later, and is what
/// messages are queued with. Before it there is nothing to queue with.
pub proof fn law_dispatcher_starts_once<X>(
    fresh: Dispatcher<X>,
    dispatcher: &mut Dispatcher<X>,
    result: Result<X, String>,
    any: Dispatcher<X>,
    started: bool,
    sender: Option<&Result<X, String>>,
)
    requires
        call_ensures(Dispatcher::<X>::new, (), fresh),
        call_ensures(Dispatcher::<X>::start, (dispatcher, result), ()),
        call_ensures(Dispatcher::<X>::is_started, (&any,), started),
        call_ensures(Dispatcher::<X>::dispatcher_sender, (&any,), sender),
    ensures
        fresh.start_result() is None && !fresh.start_failure_logged(),
        old(dispatcher).start_result() is None ==> final(dispatcher).start_result() == Some(result),
        old(dispatcher).start_result() is Some ==> final(dispatcher).start_result() 
            == old(dispatcher).start_result(),
        final(dispatcher).start_failure_logged() == old(dispatcher).start_failure_logged(),
        started <==> any.start_result() is Some,
        sender is Some <==> any.start_result() is Some,
        sender matches Some(outcome) ==> *outcome == any.start_result()->0,
{
}

/// A running dispatcher reports whether its channel took the message. One that failed to
/// start reports that, and has it logged by the first message only. Neither changes the
/// outcome of the start.
pub proof fn law_message_is_reported<X>(
    dispatcher: &mut Dispatcher<X>,
    sent: bool,
    report: DispatchReport,
)
    requires
        old(dispatcher).start_result() is Some,
        call_ensures(Dispatcher::<X>::send_dispatch_message, (dispatcher, sent), report),
    ensures
        final(dispatcher).start_result() == old(dispatcher).start_result(),
        old(dispatcher).start_result()->0 is Ok ==> {
            &&& sent ==> report == DispatchReport::Queued
            &&& !sent ==> report == DispatchReport::Disconnected
            &&& final(dispatcher).start_failure_logged() == old(dispatcher).start_failure_logged()
        },
        old(dispatcher).start_result()->0 is Err ==> {
            &&& !old(dispatcher).start_failure_logged() ==> report == DispatchReport::StartFailed
            &&& old(dispatcher).start_failure_logged() ==> report
                == DispatchReport::StartFailedBefore
            &&& final(dispatcher).start_failure_logged()
        },
{
}

/// The signal of a barrier is handed out, as it is, exactly where the dispatcher runs and
/// took the barrier.
pub proof fn law_barrier_signal_needs_a_queued_barrier<X, P>(
    dispatcher: Dispatcher<X>,
    sent: bool,
    done: P,
    signal: Option<P>,
)
    requires
        call_ensures(register_async_publication::<X, P>, (&dispatcher, sent, done), signal),
    ensures
        ({
            let running = dispatcher.start_result() matches Some(Ok(_));
            &&& running && sent ==> signal == Some(done)
            &&& !running || !sent ==> signal is None
        }),
{
}

/// A flush has to be queued exactly where the dispatcher runs and the flush does not come
/// from one of its own callbacks. From there, and before anything was dispatched, it
/// succeeds at once; and after a failed start it fails in the words of that failure.
pub proof fn law_flush_is_queued_on_a_running_dispatcher<X>(
    dispatcher: Dispatcher<X>,
    in_dispatcher: bool,
    step: FlushStep<'_, X>,
)
    requires
        call_ensures(flush_subscribers::<X>, (&dispatcher, in_dispatcher), step),
    ensures
        in_dispatcher || dispatcher.start_result() is None ==> (step matches FlushStep::Return(
            Ok(_),
        )),
        !in_dispatcher ==> (dispatcher.start_result() matches Some(Ok(running)) ==> (
        step matches FlushStep::Queue(sender) && *sender == running)),
        !in_dispatcher ==> (dispatcher.start_result() matches Some(Err(error)) ==> (
        step matches FlushStep::Return(Err(FlowError::Internal(text))) && text@ == error@)),
{
}

/// A queued flush succeeds exactly where it was acknowledged; otherwise it fails, and says
/// what went wrong and why.
pub proof fn law_flush_succeeds_when_acknowledged(flush: FlushOutcome, result: FlowResult<()>)
    requires
        call_ensures(finish_flush, (flush,), result),
    ensures
        result is Ok <==> flush is Acknowledged,
        flush matches FlushOutcome::NotQueued(error) ==> (result matches Err(
            FlowError::Internal(text),
        ) && text@ == "failed to queue subscriber flush: "@ + error@),
        flush matches FlushOutcome::NotAcknowledged(error) ==> (result matches Err(
            FlowError::Internal(text),
        ) && text@ == "subscriber flush failed: "@ + error@),
{
}

} // verus!
