//! The dispatcher: queuing, the worker's order, and one delivery.

use nemo_relay_callbacks::delivery::{
    deliver_event, sanitize_event_snapshot, sanitized_or_kept, DeliveryEvent, DeliveryStep, SnapshotStage,
    SnapshotStep, ThreadBindings,
};
use nemo_relay_callbacks::dispatcher::{
    dispatch_accepted, dispatch_event, dispatch_sanitized_event, dispatch_transformed_event,
    finish_flush, flush_subscribers, has_listeners, log_once, register_async_publication, Delivery,
    DispatchReport, Dispatcher, DispatcherMessage, FlushOutcome, FlushStep,
};
use nemo_relay_callbacks::worker::{handle_message, DispatcherWorker, Received, WorkerAction};

type PlainDelivery = Delivery<u32, &'static str, u8, char, &'static str>;

fn delivery(transform: Option<&'static str>, sanitizers: Vec<u8>, subscribers: Vec<char>) -> PlainDelivery {
    Delivery { event: 1, transform, sanitizers, subscribers, scope_stack: "queued" }
}

fn own_thread() -> ThreadBindings<&'static str> {
    ThreadBindings { scope_stack: Some("own"), in_dispatcher: false }
}

fn is_restored(thread: &ThreadBindings<&'static str>) -> bool {
    thread.scope_stack == Some("own") && !thread.in_dispatcher
}

#[test]
fn nothing_is_queued_without_subscribers() {
    let plain: Option<PlainDelivery> = dispatch_event(1, Vec::new(), "scope");
    assert!(plain.is_none());
    let sanitized: Option<PlainDelivery> = dispatch_sanitized_event(1, vec![9], Vec::new(), "scope");
    assert!(sanitized.is_none());
    let transformed: PlainDelivery = dispatch_transformed_event(1, "t", vec![9], Vec::new(), "scope");
    assert_eq!(transformed.transform, Some("t"));
    assert!(dispatch_accepted(None));
    assert!(!has_listeners::<char>(&[]));
    assert!(has_listeners(&['a']));
}

#[test]
fn failed_sanitizer_keeps_the_event() {
    assert_eq!(sanitized_or_kept(1, Some(2)), 2);
    assert_eq!(sanitized_or_kept(1, None), 1);
}

#[test]
fn flush_behind_a_barrier_covers_what_the_barrier_held_back() {
    let mut worker: DispatcherWorker<char> = DispatcherWorker::new();
    let mut queue: std::collections::VecDeque<DispatcherMessage<u8, char, u16>> =
        std::collections::VecDeque::new();
    queue.push_back(DispatcherMessage::Barrier { done: 7 });
    queue.push_back(DispatcherMessage::Flush { done: 'x' });
    let mut log = Vec::new();
    for _ in 0..4 {
        let received = queue.pop_front().map_or(Received::Empty, Received::Message);
        match worker.run_dispatcher(received) {
            WorkerAction::AwaitBarrier(barrier) => {
                // The publication is queued behind the flush, then the barrier is released.
                queue.push_back(DispatcherMessage::Deliver(1));
                log.push(format!("await {barrier}"));
            }
            WorkerAction::Deliver(event) => log.push(format!("deliver {event}")),
            WorkerAction::Acknowledge(flushes) => log.push(format!("acknowledge {flushes:?}")),
            WorkerAction::Continue | WorkerAction::Stop => {}
        }
    }
    assert_eq!(log, vec!["await 7", "deliver 1", "acknowledge ['x']"]);
}

#[test]
fn deliveries_carry_what_they_were_given() {
    let plain: PlainDelivery = dispatch_event(1, vec!['a'], "scope").unwrap();
    assert_eq!((plain.event, plain.transform, plain.sanitizers.len()), (1, None, 0));
    assert_eq!((plain.subscribers, plain.scope_stack), (vec!['a'], "scope"));
    let sanitized: PlainDelivery = dispatch_sanitized_event(2, vec![9], vec!['a', 'b'], "s").unwrap();
    assert_eq!((sanitized.event, sanitized.transform), (2, None));
    assert_eq!((sanitized.sanitizers, sanitized.subscribers), (vec![9], vec!['a', 'b']));
}

#[test]
fn running_dispatcher_reports_what_its_channel_says() {
    let mut dispatcher = Dispatcher::new();
    assert!(!dispatcher.is_started());
    assert_eq!(dispatcher.dispatcher_sender(), None);
    dispatcher.start(Ok::<u8, String>(5));
    dispatcher.start(Err("too late".into()));
    assert_eq!(dispatcher.dispatcher_sender(), Some(&Ok(5)));
    assert_eq!(dispatcher.send_dispatch_message(true), DispatchReport::Queued);
    assert_eq!(dispatcher.send_dispatch_message(false), DispatchReport::Disconnected);
    assert!(dispatch_accepted(Some(DispatchReport::Queued)));
    assert!(!dispatch_accepted(Some(DispatchReport::Disconnected)));
}

#[test]
fn failed_start_is_reported_for_logging_once() {
    let mut dispatcher: Dispatcher<u8> = Dispatcher::new();
    dispatcher.start(Err("no threads".into()));
    assert_eq!(dispatcher.dispatcher_sender(), Some(&Err("no threads".into())));
    assert_eq!(dispatcher.send_dispatch_message(false), DispatchReport::StartFailed);
    assert_eq!(dispatcher.send_dispatch_message(true), DispatchReport::StartFailedBefore);
    assert!(!dispatch_accepted(Some(DispatchReport::StartFailed)));
    assert!(!dispatch_accepted(Some(DispatchReport::StartFailedBefore)));
    let mut logged = false;
    assert!(log_once(&mut logged));
    assert!(!log_once(&mut logged));
}

#[test]
fn barrier_signal_needs_a_queued_barrier() {
    let mut dispatcher = Dispatcher::new();
    assert_eq!(register_async_publication(&dispatcher, true, 'd'), None);
    dispatcher.start(Ok::<u8, String>(5));
    assert_eq!(register_async_publication(&dispatcher, true, 'd'), Some('d'));
    assert_eq!(register_async_publication(&dispatcher, false, 'd'), None);
}

#[test]
fn flush_waits_only_for_a_running_dispatcher() {
    let mut dispatcher = Dispatcher::new();
    assert!(matches!(flush_subscribers(&dispatcher, false), FlushStep::Return(Ok(()))));
    dispatcher.start(Ok::<u8, String>(5));
    assert!(matches!(flush_subscribers(&dispatcher, false), FlushStep::Queue(5)));
    assert!(matches!(flush_subscribers(&dispatcher, true), FlushStep::Return(Ok(()))));
    let mut failed: Dispatcher<u8> = Dispatcher::new();
    failed.start(Err("no threads".into()));
    match flush_subscribers(&failed, false) {
        FlushStep::Return(Err(error)) => assert_eq!(error.message(), "internal error: no threads"),
        _ => panic!("the dispatcher never ran"),
    }
    assert!(matches!(flush_subscribers(&failed, true), FlushStep::Return(Ok(()))));
}

#[test]
fn flush_results_tell_what_was_lost() {
    assert!(finish_flush(FlushOutcome::Acknowledged).is_ok());
    assert_eq!(
        finish_flush(FlushOutcome::NotQueued("closed".into())).unwrap_err().message(),
        "internal error: failed to queue subscriber flush: closed"
    );
    assert_eq!(
        finish_flush(FlushOutcome::NotAcknowledged("gone".into())).unwrap_err().message(),
        "internal error: subscriber flush failed: gone"
    );
}

#[test]
fn flushes_wait_for_everything_queued() {
    let mut worker: DispatcherWorker<char> = DispatcherWorker::new();
    let queue: Vec<Received<u8, char, u16>> = vec![
        Received::Message(DispatcherMessage::Deliver(1)),
        Received::Message(DispatcherMessage::Flush { done: 'x' }),
        Received::Message(DispatcherMessage::Barrier { done: 7 }),
        Received::Message(DispatcherMessage::Flush { done: 'y' }),
        Received::Message(DispatcherMessage::Deliver(2)),
        Received::Empty,
        Received::Message(DispatcherMessage::Flush { done: 'z' }),
        Received::Disconnected,
        Received::Disconnected,
    ];
    let mut log = Vec::new();
    let mut draining = Vec::new();
    for received in queue {
        log.push(match worker.run_dispatcher(received) {
            WorkerAction::Continue => "continue".to_string(),
            WorkerAction::Deliver(event) => format!("deliver {event}"),
            WorkerAction::AwaitBarrier(barrier) => format!("await {barrier}"),
            WorkerAction::Acknowledge(flushes) => format!("acknowledge {flushes:?}"),
            WorkerAction::Stop => "stop".to_string(),
        });
        draining.push(worker.is_draining());
    }
    assert_eq!(
        log,
        vec![
            "deliver 1",
            "continue",
            "await 7",
            "continue",
            "deliver 2",
            "acknowledge ['x', 'y']",
            "continue",
            "acknowledge ['z']",
            "stop",
        ]
    );
    assert_eq!(
        draining,
        vec![false, true, true, true, true, false, true, false, false]
    );
}

#[test]
fn single_messages_ask_for_one_action() {
    let flush: DispatcherMessage<u8, char, u16> = DispatcherMessage::Flush { done: 'x' };
    assert!(matches!(handle_message(flush), WorkerAction::Acknowledge(flushes) if flushes == ['x']));
    let deliver: DispatcherMessage<u8, char, u16> = DispatcherMessage::Deliver(3);
    assert!(matches!(handle_message(deliver), WorkerAction::Deliver(3)));
    let barrier: DispatcherMessage<u8, char, u16> = DispatcherMessage::Barrier { done: 4 };
    assert!(matches!(handle_message(barrier), WorkerAction::AwaitBarrier(4)));
}

#[test]
fn every_subscriber_is_notified_although_one_panics() {
    let mut thread = own_thread();
    let (mut run, mut step) =
        deliver_event(&mut thread, delivery(None, Vec::new(), vec!['a', 'b', 'c']), true);
    let mut notified = Vec::new();
    while let DeliveryStep::Notify { subscriber } = step {
        assert_eq!(thread.scope_stack, Some("queued"));
        assert!(thread.in_dispatcher);
        assert_eq!(run.event(), Some(&1));
        notified.push(*run.subscriber(subscriber).unwrap());
        step = run.resume(&mut thread, DeliveryEvent::Notified { panicked: subscriber == 1 });
    }
    assert!(matches!(step, DeliveryStep::Done));
    assert_eq!(notified, vec!['a', 'b', 'c']);
    assert!(is_restored(&thread));
    assert!(run.subscriber(3).is_none());
}

#[test]
fn event_is_transformed_then_sanitized_then_published() {
    let mut thread = own_thread();
    let (mut run, step) =
        deliver_event(&mut thread, delivery(Some("t"), vec![8, 9], vec!['a']), true);
    assert!(matches!(step, DeliveryStep::Transform { transform: "t", event: 1 }));
    let step: DeliveryStep<u32, &str, u8> =
        run.resume(&mut thread, DeliveryEvent::Transformed(Some(2)));
    assert!(matches!(&step, DeliveryStep::Sanitize { event: 2, sanitizers } if *sanitizers == [8, 9]));
    assert!(run.event().is_none());
    let step: DeliveryStep<u32, &str, u8> = run.resume(&mut thread, DeliveryEvent::Sanitized(3));
    assert!(matches!(step, DeliveryStep::Notify { subscriber: 0 }));
    assert_eq!(run.event(), Some(&3));
    let step: DeliveryStep<u32, &str, u8> =
        run.resume(&mut thread, DeliveryEvent::Notified { panicked: false });
    assert!(matches!(step, DeliveryStep::Done));
    assert!(is_restored(&thread));
}

#[test]
fn dropped_event_reaches_nobody() {
    let mut thread = own_thread();
    let (run, step) = deliver_event(&mut thread, delivery(None, Vec::new(), vec!['a']), false);
    assert!(matches!(step, DeliveryStep::Done));
    assert!(run.event().is_none());
    assert!(is_restored(&thread));

    let (mut run, _) = deliver_event(&mut thread, delivery(Some("t"), Vec::new(), vec!['a']), true);
    let step: DeliveryStep<u32, &str, u8> = run.resume(&mut thread, DeliveryEvent::Transformed(None));
    assert!(matches!(step, DeliveryStep::Done));
    assert!(run.event().is_none());
    assert!(is_restored(&thread));
}

#[test]
fn snapshot_steps_follow_the_stage() {
    let stage: SnapshotStage<u32, &str, u8> = SnapshotStage::Queued {
        runtime_ready: true,
        event: 1,
        transform: None,
        sanitizers: Vec::new(),
    };
    assert!(matches!(sanitize_event_snapshot(stage), SnapshotStep::Publish { event: 1 }));
    let stage: SnapshotStage<u32, &str, u8> =
        SnapshotStage::Transformed { transformed: None, sanitizers: vec![1] };
    assert!(matches!(sanitize_event_snapshot(stage), SnapshotStep::Drop));
    let stage: SnapshotStage<u32, &str, u8> = SnapshotStage::Sanitized { event: 4 };
    assert!(matches!(sanitize_event_snapshot(stage), SnapshotStep::Publish { event: 4 }));
}
