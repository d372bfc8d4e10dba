//! The delivery of one event on the worker's thread: transform, sanitize, then
//! notify every subscriber, with the thread's bindings put back at the end.

use vstd::prelude::*;

use crate::dispatcher::Delivery;

verus! {

/// What preparing an event snapshot has come to.
pub enum SnapshotStage<E, T, S> {
    /// The event as it was queued; `runtime_ready` tells whether the runtime
    /// that drives transforms and sanitizers is available.
    Queued {
        /// Whether the runtime is available.
        runtime_ready: bool,
        /// The queued event.
        event: E,
        /// The transformation, if any.
        transform: Option<T>,
        /// The sanitizers.
        sanitizers: Vec<S>,
    },
    /// The transformation ended; `None` where it panicked.
    Transformed {
        /// The transformed event.
        transformed: Option<E>,
        /// The sanitizers.
        sanitizers: Vec<S>,
    },
    /// The sanitizers ended.
    Sanitized {
        /// What they made of the event. A sanitizer that failed has left the
        /// event as it found it.
        event: E,
    },
}

/// How preparing an event snapshot goes on.
pub enum SnapshotStep<E, T, S> {
    /// The event must not be published.
    Drop,
    /// The transformation has to run.
    Transform {
        /// The transformation.
        transform: T,
        /// The event to transform.
        event: E,
        /// The sanitizers that come after.
        sanitizers: Vec<S>,
    },
    /// The sanitizers have to run.
    Sanitize {
        /// The event to sanitize.
        event: E,
        /// The sanitizers.
        sanitizers: Vec<S>,
    },
    /// The event is ready for its subscribers.
    Publish {
        /// The event.
        event: E,
    },
}

/// How an event goes on once it is transformed.
pub open spec fn transformed_step<E, T, S>(event: E, sanitizers: Vec<S>) -> SnapshotStep<E, T, S> {
    if sanitizers@.len() == 0 {
        SnapshotStep::Publish { event }
    } else {
        SnapshotStep::Sanitize { event, sanitizers }
    }
}

/// How preparing an event snapshot goes on from `stage`.
pub open spec fn snapshot_step<E, T, S>(stage: SnapshotStage<E, T, S>) -> SnapshotStep<E, T, S> {
    match stage {
        SnapshotStage::Queued { runtime_ready, event, transform, sanitizers } => if !runtime_ready {
            SnapshotStep::Drop
        } else {
            match transform {
                Some(transform) => SnapshotStep::Transform { transform, event, sanitizers },
                None => transformed_step(event, sanitizers),
            }
        },
        SnapshotStage::Transformed { transformed, sanitizers } => match transformed {
            Some(event) => transformed_step(event, sanitizers),
            None => SnapshotStep::Drop,
        },
        SnapshotStage::Sanitized { event } => SnapshotStep::Publish { event },
    }
}

/// Applies a transform and sanitizers step by step. A transform that fails drops
/// the event, because it may be what inserts the sanitized payload; so does a
/// missing runtime. Sanitizers never drop an event.
pub fn sanitize_event_snapshot<E, T, S>(stage: SnapshotStage<E, T, S>) -> (step: SnapshotStep<
    E,
    T,
    S,
>)
    ensures
        step == snapshot_step(stage),
{
    match stage {
        SnapshotStage::Queued { runtime_ready, event, transform, sanitizers } => {
            if !runtime_ready {
                return SnapshotStep::Drop;
            }
            match transform {
                Some(transform) => SnapshotStep::Transform { transform, event, sanitizers },
                None => if sanitizers.is_empty() {
                    SnapshotStep::Publish { event }
                } else {
                    SnapshotStep::Sanitize { event, sanitizers }
                },
            }
        },
        SnapshotStage::Transformed { transformed, sanitizers } => match transformed {
            Some(event) => if sanitizers.is_empty() {
                SnapshotStep::Publish { event }
            } else {
                SnapshotStep::Sanitize { event, sanitizers }
            },
            None => SnapshotStep::Drop,
        },
        SnapshotStage::Sanitized { event } => SnapshotStep::Publish { event },
    }
}

/// The event after one sanitizer: what the sanitizer made of it, or the event as it was
/// where the sanitizer failed.
pub fn sanitized_or_kept<E>(event: E, sanitized: Option<E>) -> (next: E)
    ensures
        next == match sanitized {
            Some(sanitized) => sanitized,
            None => event,
        },
{
    match sanitized {
        Some(sanitized) => sanitized,
        None => event,
    }
}

/// What the dispatcher binds to its thread.
pub struct ThreadBindings<C> {
    /// The current scope stack, if one is bound.
    pub scope_stack: Option<C>,
    /// Whether a dispatcher callback is running.
    pub in_dispatcher: bool,
}

/// A delivery that has begun: the scope stack to put back, the sanitizers while
/// the transformation runs, the event once it is ready, and how many subscribers
/// have been notified.
pub struct DeliveryRun<E, S, B, C> {
    previous: Option<C>,
    sanitizers: Option<Vec<S>>,
    subscribers: Vec<B>,
    event: Option<E>,
    notified: usize,
}

/// What came of the last step of a delivery.
pub enum DeliveryEvent<E> {
    /// The transformation ended; `None` where it panicked.
    Transformed(Option<E>),
    /// The sanitizers ended.
    Sanitized(E),
    /// The subscriber returned, or panicked.
    Notified {
        /// Whether it panicked.
        panicked: bool,
    },
}

/// How a delivery goes on.
pub enum DeliveryStep<E, T, S> {
    /// Run the transformation on the event.
    Transform {
        /// The transformation.
        transform: T,
        /// The event.
        event: E,
    },
    /// Run the sanitizers on the event.
    Sanitize {
        /// The event.
        event: E,
        /// The sanitizers.
        sanitizers: Vec<S>,
    },
    /// Hand the event to the subscriber with this index.
    Notify {
        /// Position among the subscribers.
        subscriber: usize,
    },
    /// The delivery is over and the thread's bindings are back.
    Done,
}

/// Where a delivery stands.
pub struct RunModel<E, S, B, C> {
    /// The scope stack to put back at the end.
    pub previous: Option<C>,
    /// The sanitizers, while they wait for the transformation.
    pub sanitizers: Option<Vec<S>>,
    /// The subscribers.
    pub subscribers: Seq<B>,
    /// The event, once it is ready for its subscribers.
    pub event: Option<E>,
    /// How many subscribers have been notified.
    pub notified: int,
}

impl<E, S, B, C> View for DeliveryRun<E, S, B, C> {
    type V = RunModel<E, S, B, C>;

    closed spec fn view(&self) -> RunModel<E, S, B, C> {
        RunModel {
            previous: self.previous,
            sanitizers: self.sanitizers,
            subscribers: self.subscribers@,
            event: self.event,
            notified: self.notified as int,
        }
    }
}

/// A delivery, its thread, and how the delivery goes on.
pub struct Progress<E, T, S, B, C> {
    /// The delivery.
    pub run: RunModel<E, S, B, C>,
    /// The thread's bindings.
    pub thread: ThreadBindings<C>,
    /// The step to perform.
    pub step: DeliveryStep<E, T, S>,
}

/// The end of a delivery: the thread gets back the scope stack it had, and is
/// no longer inside a dispatcher callback.
pub open spec fn finished<E, T, S, B, C>(run: RunModel<E, S, B, C>) -> Progress<E, T, S, B, C> {
    Progress {
        run: RunModel { previous: None, ..run },
        thread: ThreadBindings { scope_stack: run.previous, in_dispatcher: false },
        step: DeliveryStep::Done,
    }
}

/// A delivery whose event is ready: the next subscriber is due, if one is left.
pub open spec fn published<E, T, S, B, C>(
    run: RunModel<E, S, B, C>,
    thread: ThreadBindings<C>,
) -> Progress<E, T, S, B, C> {
    if run.notified < run.subscribers.len() {
        Progress { run, thread, step: DeliveryStep::Notify { subscriber: run.notified as usize } }
    } else {
        finished(run)
    }
}

/// How a delivery goes on when its snapshot has come to `step`.
pub open spec fn prepared<E, T, S, B, C>(
    run: RunModel<E, S, B, C>,
    thread: ThreadBindings<C>,
    step: SnapshotStep<E, T, S>,
) -> Progress<E, T, S, B, C> {
    match step {
        SnapshotStep::Drop => finished(run),
        SnapshotStep::Transform { transform, event, sanitizers } => Progress {
            run: RunModel { sanitizers: Some(sanitizers), ..run },
            thread,
            step: DeliveryStep::Transform { transform, event },
        },
        SnapshotStep::Sanitize { event, sanitizers } => Progress {
            run,
            thread,
            step: DeliveryStep::Sanitize { event, sanitizers },
        },
        SnapshotStep::Publish { event } => published(
            RunModel { event: Some(event), ..run },
            thread,
        ),
    }
}

/// How a delivery begins: the queued scope stack and the mark of a dispatcher
/// callback are bound to the thread, and the event goes to its first step.
pub open spec fn begun<E, T, S, B, C>(
    thread: ThreadBindings<C>,
    delivery: Delivery<E, T, S, B, C>,
    runtime_ready: bool,
) -> Progress<E, T, S, B, C> {
    prepared(
        RunModel {
            previous: thread.scope_stack,
            sanitizers: None,
            subscribers: delivery.subscribers@,
            event: None,
            notified: 0,
        },
        ThreadBindings { scope_stack: Some(delivery.scope_stack), in_dispatcher: true },
        snapshot_step(
            SnapshotStage::Queued {
                runtime_ready,
                event: delivery.event,
                transform: delivery.transform,
                sanitizers: delivery.sanitizers,
            },
        ),
    )
}

/// How a delivery goes on after `event`.
pub open spec fn resumed<E, T, S, B, C>(
    run: RunModel<E, S, B, C>,
    thread: ThreadBindings<C>,
    event: DeliveryEvent<E>,
) -> Progress<E, T, S, B, C> {
    match event {
        DeliveryEvent::Transformed(transformed) => match run.sanitizers {
            Some(sanitizers) => prepared(
                RunModel { sanitizers: None, ..run },
                thread,
                snapshot_step(SnapshotStage::Transformed { transformed, sanitizers }),
            ),
            None => finished(run),
        },
        DeliveryEvent::Sanitized(event) => prepared(
            run,
            thread,
            snapshot_step(SnapshotStage::Sanitized { event }),
        ),
        DeliveryEvent::Notified { panicked: _ } => published(
            RunModel {
                notified: if run.notified < run.subscribers.len() {
                    run.notified + 1
                } else {
                    run.notified
                },
                ..run
            },
            thread,
        ),
    }
}

/// Begins the delivery of one event on the worker's thread.
pub fn deliver_event<E, T, S, B, C>(
    thread: &mut ThreadBindings<C>,
    delivery: Delivery<E, T, S, B, C>,
    runtime_ready: bool,
) -> (start: (DeliveryRun<E, S, B, C>, DeliveryStep<E, T, S>))
    ensures
        (Progress { run: start.0@, thread: *final(thread), step: start.1 }) == begun(
            *old(thread),
            delivery,
            runtime_ready,
        ),
{
    let previous = thread.scope_stack.take();
    thread.scope_stack = Some(delivery.scope_stack);
    thread.in_dispatcher = true;
    let mut run = DeliveryRun {
        previous,
        sanitizers: None,
        subscribers: delivery.subscribers,
        event: None,
        notified: 0,
    };
    let step = sanitize_event_snapshot(
        SnapshotStage::Queued {
            runtime_ready,
            event: delivery.event,
            transform: delivery.transform,
            sanitizers: delivery.sanitizers,
        },
    );
    let step = run.prepare(thread, step);
    (run, step)
}

impl<E, S, B, C> DeliveryRun<E, S, B, C> {
    /// Puts back the thread's bindings.
    fn finish<T>(&mut self, thread: &mut ThreadBindings<C>) -> (step: DeliveryStep<E, T, S>)
        ensures
            (Progress { run: final(self)@, thread: *final(thread), step }) == finished::<
                E,
                T,
                S,
                B,
                C,
            >(old(self)@),
    {
        thread.in_dispatcher = false;
        thread.scope_stack = self.previous.take();
        DeliveryStep::Done
    }

    /// Picks the next subscriber, or ends the delivery.
    fn publish<T>(&mut self, thread: &mut ThreadBindings<C>) -> (step: DeliveryStep<E, T, S>)
        ensures
            (Progress { run: final(self)@, thread: *final(thread), step }) == published::<
                E,
                T,
                S,
                B,
                C,
            >(old(self)@, *old(thread)),
    {
        if self.notified < self.subscribers.len() {
            DeliveryStep::Notify { subscriber: self.notified }
        } else {
            self.finish(thread)
        }
    }

    /// Goes on as the event snapshot asks for.
    fn prepare<T>(
        &mut self,
        thread: &mut ThreadBindings<C>,
        snapshot: SnapshotStep<E, T, S>,
    ) -> (step: DeliveryStep<E, T, S>)
        ensures
            (Progress { run: final(self)@, thread: *final(thread), step }) == prepared(
                old(self)@,
                *old(thread),
                snapshot,
            ),
    {
        match snapshot {
            SnapshotStep::Drop => self.finish(thread),
            SnapshotStep::Transform { transform, event, sanitizers } => {
                self.sanitizers = Some(sanitizers);
                DeliveryStep::Transform { transform, event }
            },
            SnapshotStep::Sanitize { event, sanitizers } => DeliveryStep::Sanitize {
                event,
                sanitizers,
            },
            SnapshotStep::Publish { event } => {
                self.event = Some(event);
                self.publish(thread)
            },
        }
    }

    /// Goes on after the last step has been performed. A subscriber that
    /// panicked counts as notified.
    pub fn resume<T>(
        &mut self,
        thread: &mut ThreadBindings<C>,
        event: DeliveryEvent<E>,
    ) -> (step: DeliveryStep<E, T, S>)
        ensures
            (Progress { run: final(self)@, thread: *final(thread), step }) == resumed::<
                E,
                T,
                S,
                B,
                C,
            >(old(self)@, *old(thread), event),
    {
        match event {
            DeliveryEvent::Transformed(transformed) => match self.sanitizers.take() {
                Some(sanitizers) => {
                    let snapshot = sanitize_event_snapshot(
                        SnapshotStage::Transformed { transformed, sanitizers },
                    );
                    self.prepare(thread, snapshot)
                },
                None => self.finish(thread),
            },
            DeliveryEvent::Sanitized(event) => {
                let snapshot = sanitize_event_snapshot(SnapshotStage::Sanitized { event });
                self.prepare(thread, snapshot)
            },
            DeliveryEvent::Notified { panicked: _ } => {
                if self.notified < self.subscribers.len() {
                    self.notified = self.notified + 1;
                }
                self.publish(thread)
            },
        }
    }

    /// The event, once it is ready for its subscribers.
    pub fn event(&self) -> (event: Option<&E>)
        ensures
            match self@.event {
                Some(ready) => event == Some(&ready),
                None => event is None,
            },
    {
        self.event.as_ref()
    }

    /// The subscriber at the given position.
    pub fn subscriber(&self, index: usize) -> (subscriber: Option<&B>)
        ensures
            if index < self@.subscribers.len() {
                subscriber == Some(&self@.subscribers[index as int])
            } else {
                subscriber is None
            },
    {
        if index < self.subscribers.len() {
            Some(&self.subscribers[index])
        } else {
            None
        }
    }
}

/// A delivery whose event is ready, after some subscribers returned or panicked.
pub open spec fn notified<E, T, S, B, C>(
    run: RunModel<E, S, B, C>,
    thread: ThreadBindings<C>,
    panics: Seq<bool>,
) -> Progress<E, T, S, B, C>
    decreases panics.len(),
{
    if panics.len() == 0 {
        published(run, thread)
    } else {
        let earlier = notified::<E, T, S, B, C>(run, thread, panics.drop_last());
        resumed(
            earlier.run,
            earlier.thread,
            DeliveryEvent::Notified { panicked: panics.last() },
        )
    }
}

/// Every subscriber is notified, in order and exactly once, whichever of them
/// panic: after as many replies as subscribers came before it, each one is due.
pub proof fn law_every_subscriber_is_notified_in_order<E, T, S, B, C>(
    run: RunModel<E, S, B, C>,
    thread: ThreadBindings<C>,
    panics: Seq<bool>,
)
    requires
        run.notified == 0,
        panics.len() < run.subscribers.len() <= usize::MAX,
    ensures
        notified::<E, T, S, B, C>(run, thread, panics) == (Progress {
            run: RunModel { notified: panics.len() as int, ..run },
            thread,
            step: DeliveryStep::<E, T, S>::Notify { subscriber: panics.len() as usize },
        }),
    decreases panics.len(),
{
    if panics.len() > 0 {
        law_every_subscriber_is_notified_in_order::<E, T, S, B, C>(run, thread, panics.drop_last());
    }
}

/// Once all subscribers have replied, the delivery is over and the thread has
/// back the scope stack that was bound before, whichever subscribers panicked.
pub proof fn law_delivery_restores_the_thread<E, T, S, B, C>(
    run: RunModel<E, S, B, C>,
    thread: ThreadBindings<C>,
    panics: Seq<bool>,
)
    requires
        run.notified == 0,
        panics.len() == run.subscribers.len() <= usize::MAX,
    ensures
        notified::<E, T, S, B, C>(run, thread, panics).step is Done,
        notified::<E, T, S, B, C>(run, thread, panics).thread == (ThreadBindings {
            scope_stack: run.previous,
            in_dispatcher: false,
        }),
{
    if panics.len() > 0 {
        law_every_subscriber_is_notified_in_order::<E, T, S, B, C>(run, thread, panics.drop_last());
    }
}

/// An event whose runtime is missing, or whose transformation panicked, reaches
/// no subscriber, and the thread has its bindings back at once.
pub proof fn law_dropped_event_reaches_nobody<E, T, S, B, C>(
    thread: ThreadBindings<C>,
    delivery: Delivery<E, T, S, B, C>,
)
    ensures
        begun(thread, delivery, false).step is Done,
        begun(thread, delivery, false).thread == (ThreadBindings {
            scope_stack: thread.scope_stack,
            in_dispatcher: false,
        }),
        delivery.transform is Some ==> {
            let start = begun(thread, delivery, true);
            let end = resumed::<E, T, S, B, C>(
                start.run,
                start.thread,
                DeliveryEvent::Transformed(None),
            );
            &&& end.step is Done
            &&& end.thread == (ThreadBindings {
                scope_stack: thread.scope_stack,
                in_dispatcher: false,
            })
        },
{
}

/// A delivery up to the point where subscribers are notified, when the
/// transformation, if there is one, ends in `transformed`, and the sanitizers, if
/// there are any, end in `sanitized`.
pub open spec fn prepared_delivery<E, T, S, B, C>(
    thread: ThreadBindings<C>,
    delivery: Delivery<E, T, S, B, C>,
    transformed: Option<E>,
    sanitized: E,
) -> Progress<E, T, S, B, C> {
    let start = begun(thread, delivery, true);
    let middle = if start.step is Transform {
        resumed(start.run, start.thread, DeliveryEvent::Transformed(transformed))
    } else {
        start
    };
    if middle.step is Sanitize {
        resumed(middle.run, middle.thread, DeliveryEvent::Sanitized(sanitized))
    } else {
        middle
    }
}

/// An event is published after its transformation and its sanitizers, and only a
/// transformation that panicked keeps it from being published: sanitizers always
/// let it through. With a subscriber left to notify the thread is bound to the
/// queued scope stack; otherwise it has its own back.
pub proof fn law_event_is_transformed_then_sanitized<E, T, S, B, C>(
    thread: ThreadBindings<C>,
    delivery: Delivery<E, T, S, B, C>,
    transformed: Option<E>,
    sanitized: E,
)
    requires
        delivery.subscribers@.len() <= usize::MAX,
    ensures
        ({
            let ready = prepared_delivery(thread, delivery, transformed, sanitized);
            let event = if delivery.transform is Some {
                transformed
            } else {
                Some(delivery.event)
            };
            let published = if event is Some && delivery.sanitizers@.len() > 0 {
                Some(sanitized)
            } else {
                event
            };
            &&& ready.run.event == published
            &&& ready.run.subscribers == delivery.subscribers@
            &&& ready.run.notified == 0
            &&& if published is Some && delivery.subscribers@.len() > 0 {
                &&& ready.step == DeliveryStep::<E, T, S>::Notify { subscriber: 0 }
                &&& ready.run.previous == thread.scope_stack
                &&& ready.thread == (ThreadBindings {
                    scope_stack: Some(delivery.scope_stack),
                    in_dispatcher: true,
                })
            } else {
                &&& ready.step is Done
                &&& ready.thread == (ThreadBindings {
                    scope_stack: thread.scope_stack,
                    in_dispatcher: false,
                })
            }
        }),
{
}

/// While a delivery lasts, the thread carries the queued scope stack and counts
/// as inside a dispatcher callback.
pub proof fn law_delivery_binds_the_queued_scope<E, T, S, B, C>(
    thread: ThreadBindings<C>,
    delivery: Delivery<E, T, S, B, C>,
    runtime_ready: bool,
)
    requires
        !(begun(thread, delivery, runtime_ready).step is Done),
    ensures
        begun(thread, delivery, runtime_ready).thread == (ThreadBindings {
            scope_stack: Some(delivery.scope_stack),
            in_dispatcher: true,
        }),
{
}

/// An event that has a runtime is transformed first, where it has a transformation, then
/// sanitized, where it has sanitizers, and then published: each step gets the very event
/// that the step before came to, with all sanitizers. Without a runtime, or after a
/// transformation that panicked, it is dropped, and never otherwise.
pub proof fn law_snapshot_goes_through_every_step<E, T, S>(
    runtime_ready: bool,
    event: E,
    transform: Option<T>,
    sanitizers: Vec<S>,
    queued: SnapshotStep<E, T, S>,
    transformed: Option<E>,
    after_transform: SnapshotStep<E, T, S>,
    sanitized: E,
    after_sanitizers: SnapshotStep<E, T, S>,
)
    requires
        call_ensures(
            sanitize_event_snapshot::<E, T, S>,
            (
                SnapshotStage::<E, T, S>::Queued { runtime_ready, event, transform, sanitizers },
            ),
            queued,
        ),
        call_ensures(
            sanitize_event_snapshot::<E, T, S>,
            (SnapshotStage::<E, T, S>::Transformed { transformed, sanitizers },),
            after_transform,
        ),
        call_ensures(
            sanitize_event_snapshot::<E, T, S>,
            (SnapshotStage::<E, T, S>::Sanitized { event: sanitized },),
            after_sanitizers,
        ),
    ensures
        queued is Drop <==> !runtime_ready,
        runtime_ready ==> {
            &&& transform matches Some(step) ==> queued == (SnapshotStep::<E, T, S>::Transform {
                transform: step,
                event,
                sanitizers,
            })
            &&& transform is None && sanitizers@.len() > 0 ==> queued == (SnapshotStep::<
                E,
                T,
                S,
            >::Sanitize { event, sanitizers })
            &&& transform is None && sanitizers@.len() == 0 ==> queued == (SnapshotStep::<
                E,
                T,
                S,
            >::Publish { event })
        },
        after_transform is Drop <==> transformed is None,
        transformed matches Some(made) ==> {
            &&& sanitizers@.len() > 0 ==> after_transform == (SnapshotStep::<E, T, S>::Sanitize {
                event: made,
                sanitizers,
            })
            &&& sanitizers@.len() == 0 ==> after_transform == (SnapshotStep::<E, T, S>::Publish {
                event: made,
            })
        },
        after_sanitizers == (SnapshotStep::<E, T, S>::Publish { event: sanitized }),
{
}

/// A sanitizer's event replaces the one before; one that failed leaves the event as it was.
pub proof fn law_failed_sanitizer_leaves_the_event<E>(event: E, sanitized: Option<E>, next: E)
    requires
        call_ensures(sanitized_or_kept::<E>, (event, sanitized), next),
    ensures
        sanitized matches Some(made) ==> next == made,
        sanitized is None ==> next == event,
{
}

/// Whether a delivery whose event is ready goes on to the subscriber at this position,
/// with the thread as it was; or, where there is none, is over and has put back the scope
/// stack that was bound before.
pub open spec fn goes_to<E, T, S, B, C>(
    run: RunModel<E, S, B, C>,
    position: int,
    previous: Option<C>,
    bound: ThreadBindings<C>,
    thread: ThreadBindings<C>,
    step: DeliveryStep<E, T, S>,
) -> bool {
    if position < run.subscribers.len() {
        (step matches DeliveryStep::Notify { subscriber } && subscriber == position) && thread
            == bound && run.previous == previous
    } else {
        step is Done && thread.scope_stack == previous && !thread.in_dispatcher
    }
}

/// A delivery begins with the thread bound to the queued scope stack and marked as inside a
/// dispatcher callback, the scope stack before it kept, and with all subscribers, none of
/// them notified. Its event then goes through its transformation, its sanitizers, or
/// straight to its subscribers. Without a runtime it is over at once, and the thread has
/// back what it had.
pub proof fn law_delivery_begins_with_the_queued_event<E, T, S, B, C>(
    thread: &mut ThreadBindings<C>,
    delivery: Delivery<E, T, S, B, C>,
    runtime_ready: bool,
    run: DeliveryRun<E, S, B, C>,
    step: DeliveryStep<E, T, S>,
)
    requires
        call_ensures(
            deliver_event::<E, T, S, B, C>,
            (thread, delivery, runtime_ready),
            (run, step),
        ),
    ensures
        ({
            let before = old(thread).scope_stack;
            let after = *final(thread);
            let bound = ThreadBindings {
                scope_stack: Some(delivery.scope_stack),
                in_dispatcher: true,
            };
            &&& run@.subscribers == delivery.subscribers@ && run@.notified == 0
            &&& !runtime_ready ==> step is Done && after.scope_stack == before
                && !after.in_dispatcher && run@.event is None
            &&& runtime_ready ==> {
                &&& delivery.transform matches Some(transform) ==> {
                    &&& step == (DeliveryStep::<E, T, S>::Transform {
                        transform,
                        event: delivery.event,
                    })
                    &&& after == bound && run@.previous == before
                    &&& run@.sanitizers == Some(delivery.sanitizers) && run@.event is None
                }
                &&& delivery.transform is None && delivery.sanitizers@.len() > 0 ==> {
                    &&& step == (DeliveryStep::<E, T, S>::Sanitize {
                        event: delivery.event,
                        sanitizers: delivery.sanitizers,
                    })
                    &&& after == bound && run@.previous == before && run@.event is None
                }
                &&& delivery.transform is None && delivery.sanitizers@.len() == 0 ==> {
                    &&& run@.event == Some(delivery.event)
                    &&& goes_to(run@, 0, before, bound, after, step)
                }
            }
        }),
{
}

/// A delivery goes on with exactly what its last step came to: a transformed event is
/// sanitized with all sanitizers, or published where there are none; a sanitized event is
/// published; and a transformation that panicked ends the delivery with nobody notified.
/// The subscribers stay the same throughout.
pub proof fn law_delivery_goes_on_with_the_event<E, T, S, B, C>(
    run: &mut DeliveryRun<E, S, B, C>,
    thread: &mut ThreadBindings<C>,
    event: DeliveryEvent<E>,
    step: DeliveryStep<E, T, S>,
)
    requires
        call_ensures(DeliveryRun::<E, S, B, C>::resume::<T>, (run, thread, event), step),
    ensures
        ({
            let before = old(run)@;
            let after = final(run)@;
            let bound = *old(thread);
            let rebound = *final(thread);
            &&& after.subscribers == before.subscribers
            &&& event matches DeliveryEvent::Sanitized(made) ==> after.event == Some(made)
                && after.notified == before.notified && goes_to(
                after,
                before.notified,
                before.previous,
                bound,
                rebound,
                step,
            )
            &&& event matches DeliveryEvent::Transformed(None) ==> step is Done
                && rebound.scope_stack == before.previous && !rebound.in_dispatcher && after.event
                == before.event && after.notified == before.notified
            &&& event matches DeliveryEvent::Transformed(Some(made)) ==> {
                &&& after.notified == before.notified
                &&& before.sanitizers matches Some(sanitizers) ==> {
                    &&& sanitizers@.len() > 0 ==> step == (DeliveryStep::<E, T, S>::Sanitize {
                        event: made,
                        sanitizers,
                    }) && rebound == bound && after.previous == before.previous && after.event
                        == before.event
                    &&& sanitizers@.len() == 0 ==> after.event == Some(made) && goes_to(
                        after,
                        before.notified,
                        before.previous,
                        bound,
                        rebound,
                        step,
                    )
                }
            }
        }),
{
}

/// Whether a subscriber panicked makes no difference: the next one is due, of the very same
/// event, or the delivery is over and the thread has back what it had.
pub proof fn law_panicking_subscriber_does_not_stop_the_next<E, T, S, B, C>(
    run: &mut DeliveryRun<E, S, B, C>,
    thread: &mut ThreadBindings<C>,
    panicked: bool,
    step: DeliveryStep<E, T, S>,
)
    requires
        old(run)@.notified < old(run)@.subscribers.len(),
        call_ensures(
            DeliveryRun::<E, S, B, C>::resume::<T>,
            (run, thread, DeliveryEvent::Notified { panicked }),
            step,
        ),
    ensures
        final(run)@.event == old(run)@.event,
        final(run)@.notified == old(run)@.notified + 1,
        final(run)@.subscribers == old(run)@.subscribers,
        goes_to(
            final(run)@,
            old(run)@.notified + 1,
            old(run)@.previous,
            *old(thread),
            *final(thread),
            step,
        ),
{
}

/// What subscribers get is the event that is ready, and each position is that of its own
/// subscriber.
pub proof fn law_subscribers_are_found_by_position<E, S, B, C>(
    run: DeliveryRun<E, S, B, C>,
    event: Option<&E>,
    index: usize,
    subscriber: Option<&B>,
)
    requires
        call_ensures(DeliveryRun::<E, S, B, C>::event, (&run,), event),
        call_ensures(DeliveryRun::<E, S, B, C>::subscriber, (&run, index), subscriber),
    ensures
        event is Some <==> run@.event is Some,
        event matches Some(ready) ==> *ready == run@.event->0,
        subscriber is Some <==> index < run@.subscribers.len(),
        subscriber matches Some(found) ==> *found == run@.subscribers[index as int],
{
}

} // verus!
