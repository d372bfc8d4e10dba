//! Calls into JavaScript.

use nemo_relay_callbacks::error::{FlowError, FlowResult};
use nemo_relay_callbacks::json::Json;
use nemo_relay_callbacks::promise::{
    callback_arguments, closed_tsfn_error, next_argument, queue_status_result, received_result,
    CallCompletion, JsArgument, NextFn, PrimaryArg, PromiseAwareFn, QueuedCall,
};

type Queued<'a> = FlowResult<QueuedCall<'a, char, &'static str, u8, u16, u32>>;

fn json(text: &str) -> Json {
    Json::from_text(text).unwrap()
}

fn describe(queued: Queued<'_>) -> (char, String, Vec<&'static str>, Option<u32>) {
    let call = queued.unwrap();
    let (arguments, mut completion) = callback_arguments(call.args);
    let mut first = String::new();
    let kinds = arguments
        .into_iter()
        .map(|argument| match argument {
            JsArgument::Json(value) => {
                first = value.to_text();
                "json"
            }
            JsArgument::Build(build) => {
                first = build.to_string();
                "build"
            }
            JsArgument::Boolean(true) => "true",
            JsArgument::Boolean(false) => "false",
            JsArgument::Next(NextFn::Json(_)) => "json next",
            JsArgument::Next(NextFn::Stream(_)) => "stream next",
            JsArgument::Undefined => "undefined",
            JsArgument::Resolve => "resolve",
            JsArgument::Reject => "reject",
        })
        .collect();
    let sender = completion
        .send(Ok(Json::Null))
        .map(|settlement| settlement.sender);
    (*call.tsfn, first, kinds, sender)
}

#[test]
fn calls_are_queued_with_five_arguments() {
    let callback = PromiseAwareFn::new('f');
    let plain = vec!["json", "false", "undefined", "resolve", "reject"];
    assert_eq!(
        describe(callback.call(json("{ }"), 1)),
        ('f', "{}".into(), plain, Some(1))
    );
    let spread = vec!["json", "true", "undefined", "resolve", "reject"];
    assert_eq!(
        describe(callback.call_spread(&vec![json("1"), Json::String("x".into())], 2)),
        ('f', "[1,\"x\"]".into(), spread, Some(2))
    );
    let built = vec!["build", "false", "undefined", "resolve", "reject"];
    assert_eq!(
        describe(callback.call_with_arg0("b", 3)),
        ('f', "b".into(), built, Some(3))
    );
    let built_spread = vec!["build", "true", "undefined", "resolve", "reject"];
    assert_eq!(
        describe(callback.call_spread_with_arg0("b", 4)),
        ('f', "b".into(), built_spread, Some(4))
    );
    let json_next = vec!["json", "false", "json next", "resolve", "reject"];
    assert_eq!(
        describe(callback.call_with_json_next(json("1"), 7, 5)),
        ('f', "1".into(), json_next, Some(5))
    );
    let stream_next = vec!["json", "false", "stream next", "resolve", "reject"];
    assert_eq!(
        describe(callback.call_with_stream_next(json("1"), 8, 6)),
        ('f', "1".into(), stream_next, Some(6))
    );
}

#[test]
fn closed_callback_refuses_every_call() {
    let mut callback = PromiseAwareFn::new('f');
    assert_eq!(callback.close(), Some('f'));
    assert_eq!(callback.close(), None);
    let message = "internal error: PromiseAwareFn threadsafe function closed";
    let queued: Queued<'_> = callback.call(Json::Null, 1);
    assert!(matches!(queued, Err(error) if error.message() == message));
    let queued: Queued<'_> = callback.call_spread_with_arg0("b", 1);
    assert!(matches!(queued, Err(error) if error.message() == message));
    assert_eq!(closed_tsfn_error().message(), message);
}

#[test]
fn first_result_settles_the_call() {
    let mut completion = CallCompletion::new(9u8);
    let settlement = completion.resolve(Ok(json("[1]"))).unwrap();
    assert_eq!(settlement.sender, 9);
    assert_eq!(settlement.result.unwrap(), json("[1]"));
    assert!(completion.reject(Some("late".into())).is_none());
    assert!(completion.resolve(Ok(Json::Null)).is_none());
}

#[test]
fn unusable_results_reject_the_call() {
    let message = |settlement: Option<nemo_relay_callbacks::promise::CallSettlement<u8>>| {
        settlement.unwrap().result.unwrap_err().message()
    };
    assert_eq!(
        message(CallCompletion::new(1).resolve(Err("BigInt".into()))),
        "internal error: JavaScript callback result could not be converted to JSON: BigInt"
    );
    assert_eq!(
        message(CallCompletion::new(1).reject(Some("thrown".into()))),
        "internal error: thrown"
    );
    assert_eq!(
        message(CallCompletion::new(1).reject(None)),
        "internal error: unknown error"
    );
}

#[test]
fn queue_failures_name_their_status() {
    assert!(queue_status_result(Ok(())).is_ok());
    for name in ["QueueFull", "Closing", "Unknown"] {
        assert_eq!(
            queue_status_result(Err(name.into())).unwrap_err().message(),
            format!("internal error: failed to queue threadsafe function call: {name}")
        );
    }
}

#[test]
fn received_results_are_handed_on() {
    assert_eq!(received_result(Ok(Ok(json("1")))).unwrap(), json("1"));
    assert_eq!(
        received_result(Ok(Err(FlowError::NotFound("x".into()))))
            .unwrap_err()
            .message(),
        "not found: x"
    );
    assert_eq!(
        received_result(Err("channel closed".into())).unwrap_err().message(),
        "internal error: channel closed"
    );
    assert_eq!(next_argument(None), Json::Null);
    assert_eq!(next_argument(Some(json("3"))), json("3"));
    assert!(matches!(PrimaryArg::<u8>::Json(Json::Null), PrimaryArg::Json(Json::Null)));
}
