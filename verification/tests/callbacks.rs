//! Callbacks, synchronous and completion-based, and the `next` they may call.

use nemo_relay_callbacks::async_callable::{
    event_sanitizer_callback_active, wrap_async_event_sanitize_fn, wrap_async_llm_conditional_fn,
    wrap_async_llm_execution_intercept_fn, wrap_async_llm_request_intercept_fn,
    wrap_async_llm_stream_execution_intercept_fn, wrap_async_tool_conditional_fn,
    wrap_async_tool_execution_intercept_fn, wrap_async_tool_json_fn, ActiveEventSanitizerCallback,
    AsyncDecodedStage, AsyncDecodedStep, AsyncStage, AsyncStep, EventCall, InterceptCall,
    NamedRequest,
};
use nemo_relay_callbacks::callable::{
    wrap_tool_conditional_fn, wrap_tool_exec_fn, wrap_tool_exec_intercept_fn,
    wrap_tool_request_intercept_fn, wrap_tool_sanitize_fn, CallReply, CallStage, CallStep,
    DecodedCallStage, DecodedCallStep, ToolCall,
};
use nemo_relay_callbacks::codec::LlmRequest;
use nemo_relay_callbacks::error::{FlowError, FlowResult, NemoRelayStatus};
use nemo_relay_callbacks::json::Json;
use nemo_relay_callbacks::llm::{
    wrap_collector_fn, wrap_event_sanitize_fn, wrap_finalizer_fn, wrap_llm_conditional_fn,
    wrap_llm_exec_fn, wrap_llm_exec_intercept_fn, wrap_llm_request_intercept_fn,
    wrap_llm_stream_exec_fn, wrap_llm_stream_exec_intercept_fn, EventFields,
    RequestInterceptStage, RequestInterceptStep,
};
use nemo_relay_callbacks::trampoline::{
    llm_next_trampoline, llm_stream_next_trampoline, tool_next_trampoline, LlmNextStage,
    LlmNextStep, ToolNextStage, ToolNextStep,
};

fn json(text: &str) -> Json {
    Json::from_text(text).unwrap()
}

fn tool_call() -> ToolCall {
    ToolCall { name: "search".into(), args: json("{\"q\": 1}") }
}

fn reply(text: Option<&str>, last_error: Option<&str>) -> CallReply {
    CallReply {
        result: text.map(|text| text.as_bytes().to_vec()),
        last_error: last_error.map(str::to_owned),
    }
}

fn call_args<A, V>(step: CallStep<A, V>) -> (bool, A) {
    match step {
        CallStep::Call { clear_last_error, args } => (clear_last_error, args),
        CallStep::Finish { .. } => panic!("the callback must be called"),
    }
}

fn finished<A, V>(step: CallStep<A, V>) -> FlowResult<V> {
    match step {
        CallStep::Finish { result, .. } => result,
        CallStep::Call { .. } => panic!("the callback has returned"),
    }
}

#[test]
fn tool_callbacks_get_name_and_arguments() {
    let (clear, args) = call_args(wrap_tool_sanitize_fn(CallStage::Start(tool_call())));
    assert!(!clear);
    assert_eq!((args.name.as_str(), args.json.as_str()), ("search", "{\"q\":1}"));
    let (clear, _) = call_args(wrap_tool_conditional_fn(CallStage::Start(tool_call())));
    assert!(clear);
    let (clear, _) = call_args(wrap_tool_request_intercept_fn(CallStage::Start(tool_call())));
    assert!(clear);
    let nul = ToolCall { name: "a\0b".into(), args: Json::Null };
    let (_, args) = call_args(wrap_tool_sanitize_fn(CallStage::Start(nul)));
    assert_eq!((args.name.as_str(), args.json.as_str()), ("", "null"));
}

#[test]
fn tool_sanitizer_takes_null_for_what_is_no_json() {
    let result = |text| {
        finished(wrap_tool_sanitize_fn(CallStage::Returned(reply(text, Some("ignored"))))).unwrap()
    };
    assert_eq!(result(Some("[1]")), json("[1]"));
    assert_eq!(result(Some("oops")), Json::Null);
    assert_eq!(result(None), Json::Null);
}

#[test]
fn conditional_guardrails_reject_with_a_reason() {
    let tool = |reply| finished(wrap_tool_conditional_fn(CallStage::Returned(reply)));
    let llm = |reply| finished(wrap_llm_conditional_fn(CallStage::<u8>::Returned(reply)));
    assert_eq!(tool(reply(Some("no"), Some("ignored"))).unwrap(), Some("no".into()));
    assert_eq!(tool(reply(None, None)).unwrap(), None);
    assert_eq!(
        tool(reply(None, Some("broken"))).unwrap_err().message(),
        "internal error: broken"
    );
    assert_eq!(llm(reply(Some("no"), None)).unwrap(), Some("no".into()));
    assert_eq!(llm(reply(None, None)).unwrap(), None);
    assert_eq!(
        llm(reply(None, Some("broken"))).unwrap_err().message(),
        "internal error: broken"
    );
    assert_eq!(call_args(wrap_llm_conditional_fn(CallStage::Start(6u8))), (true, 6));
}

#[test]
fn null_results_fail_with_the_last_error_or_a_fallback() {
    let cases: Vec<(FlowResult<Json>, &str)> = vec![
        (
            finished(wrap_tool_request_intercept_fn(CallStage::Returned(reply(None, None)))),
            "tool request intercept callback returned null",
        ),
        (
            finished(wrap_tool_exec_fn(CallStage::Returned(reply(None, None)))),
            "tool execution callback failed",
        ),
        (
            finished(wrap_llm_exec_fn(CallStage::Returned(reply(None, None)))),
            "LLM execution callback failed",
        ),
        (
            finished(wrap_llm_exec_intercept_fn(CallStage::Returned(reply(None, None)))),
            "LLM execution intercept callback failed",
        ),
        (
            finished(wrap_llm_stream_exec_fn(CallStage::Returned(reply(None, None))))
                .map(|_| Json::Null),
            "LLM stream execution callback failed",
        ),
        (
            finished(wrap_llm_stream_exec_intercept_fn(CallStage::Returned(reply(None, None))))
                .map(|_| Json::Null),
            "LLM stream execution intercept callback failed",
        ),
        (
            finished(wrap_llm_exec_fn(CallStage::Returned(reply(None, Some("last"))))),
            "last",
        ),
    ];
    for (result, message) in cases {
        assert_eq!(result.unwrap_err().message(), format!("internal error: {message}"));
    }
}

#[test]
fn executions_hand_over_json() {
    let (clear, args) = call_args(wrap_tool_exec_fn(CallStage::Start(json("[1, 2]"))));
    assert_eq!((clear, args.as_str()), (false, "[1,2]"));
    let (clear, args) = call_args(wrap_llm_exec_fn(CallStage::Start(Some(json("{}")))));
    assert_eq!((clear, args.as_str()), (false, "{}"));
    let (_, args) = call_args(wrap_llm_exec_intercept_fn(CallStage::Start(None)));
    assert_eq!(args, "null");
    let (_, args) = call_args(wrap_llm_stream_exec_fn(CallStage::Start(None)));
    assert_eq!(args, "null");
    let (_, args) = call_args(wrap_llm_stream_exec_intercept_fn(CallStage::Start(Some(json("1")))));
    assert_eq!(args, "1");
    let chunks =
        finished(wrap_llm_stream_exec_fn(CallStage::Returned(reply(Some("{}"), None)))).unwrap();
    assert_eq!(chunks, vec![json("{}")]);
    let chunks =
        finished(wrap_llm_stream_exec_intercept_fn(CallStage::Returned(reply(Some("x"), None))))
            .unwrap();
    assert_eq!(chunks, vec![Json::Null]);
    let result = finished(wrap_tool_exec_fn(CallStage::Returned(reply(Some("7"), None))));
    assert_eq!(result.unwrap(), json("7"));
}

#[test]
fn tool_intercept_outcome_is_decoded() {
    let step = wrap_tool_exec_intercept_fn(DecodedCallStage::<_, u8>::Start(json("{\"a\":1}")));
    assert!(matches!(step, DecodedCallStep::Call { clear_last_error: false, args }
        if args == "{\"a\":1}"));
    let back = |reply| wrap_tool_exec_intercept_fn(DecodedCallStage::<Json, u8>::Returned(reply));
    assert!(matches!(back(reply(Some("{ \"result\": 1 }"), None)), DecodedCallStep::Decode { text, release_result: true }
        if text == "{\"result\":1}"));
    assert!(matches!(back(reply(None, None)), DecodedCallStep::Finish { result: Err(error), release_result: false }
        if error.message() == "internal error: tool execution intercept callback failed"));
    let decoded = |value| wrap_tool_exec_intercept_fn(DecodedCallStage::<Json, u8>::Decoded(value));
    assert!(matches!(decoded(Ok(3)), DecodedCallStep::Finish { result: Ok(3), release_result: false }));
    assert!(matches!(decoded(Err("missing field".into())), DecodedCallStep::Finish { result: Err(error), .. }
        if error.message()
            == "internal error: invalid tool execution intercept outcome JSON: missing field"));
}

#[test]
fn returned_strings_are_released_once() {
    let released = |step| match step {
        CallStep::<String, Json>::Finish { release_result, .. } => release_result,
        CallStep::Call { .. } => panic!("the callback has returned"),
    };
    let returned = |text| CallStage::Returned(reply(text, None));
    assert!(released(wrap_tool_exec_fn(returned(Some("oops")))));
    assert!(!released(wrap_tool_exec_fn(returned(None))));
    let decoded = |stage: DecodedCallStage<Json, u8>| match wrap_tool_exec_intercept_fn(stage) {
        DecodedCallStep::Call { .. } => false,
        DecodedCallStep::Decode { release_result, .. } => release_result,
        DecodedCallStep::Finish { release_result, .. } => release_result,
    };
    assert!(decoded(DecodedCallStage::Returned(reply(Some("{}"), None))));
    assert!(!decoded(DecodedCallStage::Returned(reply(None, None))));
    assert!(!decoded(DecodedCallStage::Decoded(Err("bad".into()))));
}

#[test]
fn collectors_and_finalizers_never_fail() {
    let (clear, args) = call_args(wrap_collector_fn(CallStage::Start(json("[1]"))));
    assert_eq!((clear, args.as_str()), (false, "[1]"));
    assert!(finished(wrap_collector_fn(CallStage::Returned(reply(None, Some("x"))))).is_ok());
    let (clear, ()) = call_args(wrap_finalizer_fn(CallStage::Start(())));
    assert!(!clear);
    let aggregated = |text| finished(wrap_finalizer_fn(CallStage::Returned(reply(text, None))));
    assert_eq!(aggregated(Some("{}")).unwrap(), json("{}"));
    assert_eq!(aggregated(None).unwrap(), Json::Null);
}

#[test]
fn event_sanitizer_result_is_decoded() {
    let start = |fields| {
        wrap_event_sanitize_fn(DecodedCallStage::<_, u8>::Start(EventFields { event: 'e', fields }))
    };
    assert!(matches!(start(Some(json("{}"))), DecodedCallStep::Call { clear_last_error: false, args }
        if args.event == 'e' && args.fields_json == "{}"));
    assert!(matches!(start(None), DecodedCallStep::Call { args, .. } if args.fields_json == "null"));
    let next = |stage: DecodedCallStage<EventFields<char>, u8>| wrap_event_sanitize_fn(stage);
    assert!(matches!(next(DecodedCallStage::Returned(reply(None, None))),
        DecodedCallStep::Decode { text, release_result: false } if text == "null"));
    assert!(matches!(next(DecodedCallStage::Decoded(Ok(1))), DecodedCallStep::Finish { result: Ok(1), .. }));
    assert!(matches!(next(DecodedCallStage::Decoded(Err("bad".into()))),
        DecodedCallStep::Finish { result: Err(error), .. }
        if error.message() == "internal error: invalid event sanitizer result: bad"));
}

#[test]
fn request_intercept_hands_over_the_annotation() {
    let start = |annotated| {
        match wrap_llm_request_intercept_fn(RequestInterceptStage::<_, u8>::Start {
            name: "i".into(),
            request: 'r',
            annotated,
        }) {
            RequestInterceptStep::Call { name, request, annotated_json } => {
                assert_eq!((name.as_str(), request), ("i", 'r'));
                annotated_json
            }
            _ => panic!("the callback must be called"),
        }
    };
    assert_eq!(start(None), None);
    assert_eq!(start(Some(Some("{}".into()))), Some("{}".into()));
    assert_eq!(start(Some(None)), Some("null".into()));
    assert_eq!(start(Some(Some("\0".into()))), Some(String::new()));
}

#[test]
fn request_intercept_outcome_is_released_once() {
    let back = |status, outcome: Option<&[u8]>, last_error: Option<&str>| {
        wrap_llm_request_intercept_fn(RequestInterceptStage::<char, u8>::Returned {
            status,
            outcome: outcome.map(<[u8]>::to_vec),
            last_error: last_error.map(str::to_owned),
        })
    };
    let failure = |step| match step {
        RequestInterceptStep::Finish { result, release_outcome } => {
            (result.map(|_: u8| ()).unwrap_err().message(), release_outcome)
        }
        _ => panic!("the intercept must fail"),
    };
    let ok = NemoRelayStatus::Success;
    let bad = NemoRelayStatus::GuardrailRejected;
    assert!(matches!(back(ok, Some(b"{}"), None),
        RequestInterceptStep::Decode { text, release_outcome: true } if text == "{}"));
    assert_eq!(
        failure(back(bad, Some(b"{}"), None)),
        ("internal error: request intercept callback failed".into(), true)
    );
    assert_eq!(failure(back(bad, None, Some("why"))), ("internal error: why".into(), false));
    assert_eq!(
        failure(back(ok, None, Some("ignored"))),
        ("internal error: request intercept returned null out_outcome_json".into(), false)
    );
    let (message, released) = failure(back(ok, Some(b"\xff"), None));
    assert_eq!(
        message,
        "internal error: invalid outcome UTF-8: invalid utf-8 sequence of 1 bytes from index 0"
    );
    assert!(released);
    let decoded = |value| {
        wrap_llm_request_intercept_fn(RequestInterceptStage::<char, u8>::Decoded(value))
    };
    assert!(matches!(decoded(Ok(4)),
        RequestInterceptStep::Finish { result: Ok(4), release_outcome: false }));
    assert_eq!(
        failure(decoded(Err("EOF".into()))),
        ("internal error: invalid LLM request intercept outcome JSON: EOF".into(), false)
    );
}

#[test]
fn tool_next_reads_leniently_and_reports_errors() {
    let called = |text: Option<&str>| {
        tool_next_trampoline(ToolNextStage::Called(text.map(|text| text.as_bytes().to_vec())))
    };
    assert!(matches!(called(Some("[1]")), ToolNextStep::Run(Json::Array(_))));
    assert!(matches!(called(Some("oops")), ToolNextStep::Run(Json::Null)));
    assert!(matches!(called(None), ToolNextStep::Run(Json::Null)));
    let ran = |result| match tool_next_trampoline(ToolNextStage::Ran(result)) {
        ToolNextStep::Return(given) => (given.result, given.last_error),
        ToolNextStep::Run(_) => panic!("the layer has run"),
    };
    assert_eq!(ran(Ok(json("[1]"))), (Some("[1]".into()), None));
    assert_eq!(
        ran(Err(FlowError::Internal("x".into()))),
        (None, Some("internal error: x".into()))
    );
}

#[test]
fn llm_next_falls_back_to_an_empty_request() {
    let empty = LlmRequest { headers: "{}".into(), content: Json::Null };
    assert!(matches!(llm_next_trampoline(LlmNextStage::Called(None)), LlmNextStep::Run(request)
        if request == empty));
    assert!(matches!(llm_next_trampoline(LlmNextStage::Called(Some(b"{\xff".to_vec()))),
        LlmNextStep::Decode(text) if text == "{\u{fffd}"));
    assert!(matches!(llm_next_trampoline(LlmNextStage::Decoded(None)), LlmNextStep::Run(request)
        if request == empty));
    let read = LlmRequest { headers: "{\"h\":1}".into(), content: json("[1]") };
    assert!(matches!(llm_stream_next_trampoline(LlmNextStage::Decoded(Some(read))),
        LlmNextStep::Run(request) if request.headers == "{\"h\":1}"));
    assert!(matches!(llm_next_trampoline(LlmNextStage::Ran(Ok(json("1")))),
        LlmNextStep::Return(given) if given.result == Some("1".into())));
}

#[test]
fn passing_intercepts_change_nothing() {
    let (_, args) = call_args(wrap_llm_exec_intercept_fn(CallStage::Start(Some(json("[1]")))));
    assert!(matches!(
        llm_next_trampoline(LlmNextStage::Called(Some(args.into_bytes()))),
        LlmNextStep::Decode(text) if text == "[1]"
    ));
    let given = |stage| match llm_next_trampoline(stage) {
        LlmNextStep::Return(given) => given,
        _ => panic!("the layer has run"),
    };
    let passed = |result| {
        let given = given(LlmNextStage::Ran(result));
        let reply = reply(given.result.as_deref(), given.last_error.as_deref());
        finished(wrap_llm_exec_intercept_fn(CallStage::Returned(reply)))
    };
    assert_eq!(passed(Ok(json("{\"a\":[1]}"))).unwrap(), json("{\"a\":[1]}"));
    assert_eq!(
        passed(Err(FlowError::NotFound("x".into()))).unwrap_err().message(),
        "internal error: not found: x"
    );
    let step = llm_stream_next_trampoline(LlmNextStage::Ran(Ok(None)));
    let LlmNextStep::Return(given) = step else {
        panic!("the layer has run");
    };
    let reply = reply(given.result.as_deref(), given.last_error.as_deref());
    let chunks = finished(wrap_llm_stream_exec_intercept_fn(CallStage::Returned(reply))).unwrap();
    assert_eq!(chunks, vec![Json::Null]);
}

#[test]
fn stream_next_gives_back_its_first_item() {
    let ran = |stream| match llm_stream_next_trampoline(LlmNextStage::Ran(stream)) {
        LlmNextStep::Return(given) => (given.result, given.last_error),
        _ => panic!("the layer has run"),
    };
    assert_eq!(ran(Ok(Some(Ok(json("1"))))), (Some("1".into()), None));
    assert_eq!(ran(Ok(None)), (Some("null".into()), None));
    assert_eq!(
        ran(Ok(Some(Err(FlowError::NotFound("x".into()))))),
        (None, Some("not found: x".into()))
    );
    assert_eq!(
        ran(Err(FlowError::ScopeStackEmpty)),
        (None, Some("scope stack empty".into()))
    );
}

fn envelope<V>(step: AsyncStep<V>) -> String {
    match step {
        AsyncStep::Invoke(envelope) => envelope.to_text(),
        AsyncStep::Finish(_) => panic!("the callback must be invoked"),
    }
}

fn decoded_envelope<T>(step: AsyncDecodedStep<T>) -> String {
    match step {
        AsyncDecodedStep::Invoke(envelope) => envelope.to_text(),
        _ => panic!("the callback must be invoked"),
    }
}

fn settled<V>(step: AsyncStep<V>) -> FlowResult<V> {
    match step {
        AsyncStep::Finish(result) => result,
        AsyncStep::Invoke(_) => panic!("the invocation has ended"),
    }
}

#[test]
fn async_envelopes_name_their_members() {
    let named = || NamedRequest { name: "i".into(), request: json("{\"b\": 1}") };
    assert_eq!(
        envelope(wrap_async_tool_json_fn(AsyncStage::Start(tool_call()))),
        r#"{"name":"search","value":{"q":1}}"#
    );
    assert_eq!(
        envelope(wrap_async_tool_conditional_fn(AsyncStage::Start(tool_call()))),
        r#"{"name":"search","value":{"q":1}}"#
    );
    assert_eq!(
        envelope(wrap_async_llm_conditional_fn(AsyncStage::Start(json("[1]")))),
        r#"{"request":[1]}"#
    );
    assert_eq!(
        envelope(wrap_async_llm_execution_intercept_fn(AsyncStage::Start(named()))),
        r#"{"name":"i","request":{"b":1}}"#
    );
    assert_eq!(
        envelope(wrap_async_llm_stream_execution_intercept_fn(AsyncStage::Start(named()))),
        r#"{"name":"i","request":{"b":1}}"#
    );
    let events = EventCall { event: json("{}"), fields: json("[]") };
    assert_eq!(
        decoded_envelope(wrap_async_event_sanitize_fn(AsyncDecodedStage::<_, u8>::Start(events))),
        r#"{"event":{},"fields":[]}"#
    );
    assert_eq!(
        decoded_envelope(wrap_async_tool_execution_intercept_fn(
            AsyncDecodedStage::<_, u8>::Start(tool_call())
        )),
        r#"{"name":"search","value":{"q":1}}"#
    );
    let intercept = |annotated| {
        decoded_envelope(wrap_async_llm_request_intercept_fn(AsyncDecodedStage::<_, u8>::Start(
            InterceptCall { name: "i".into(), request: json("1"), annotated },
        )))
    };
    assert_eq!(intercept(None), r#"{"annotated":null,"name":"i","request":1}"#);
    assert_eq!(
        intercept(Some(json("[2]"))),
        r#"{"annotated":[2],"name":"i","request":1}"#
    );
}

#[test]
fn async_guardrails_settle_with_null_or_a_reason() {
    let tool = |value| settled(wrap_async_tool_conditional_fn(AsyncStage::Settled(value)));
    let llm = |value| settled(wrap_async_llm_conditional_fn(AsyncStage::Settled(value)));
    assert_eq!(tool(Ok(Json::Null)).unwrap(), None);
    assert_eq!(tool(Ok(Json::String("no".into()))).unwrap(), Some("no".into()));
    assert_eq!(
        tool(Ok(json("[1, true]"))).unwrap_err().message(),
        "internal error: async conditional callback returned [1,true]; expected string or null"
    );
    assert_eq!(
        llm(Ok(json("{\"a\": 1}"))).unwrap_err().message(),
        "internal error: async conditional callback returned {\"a\":1}; expected string or null"
    );
    assert_eq!(
        llm(Err(FlowError::Internal("x".into()))).unwrap_err().message(),
        "internal error: x"
    );
}

#[test]
fn async_results_are_handed_on_or_decoded() {
    let value = settled(wrap_async_tool_json_fn(AsyncStage::Settled(Ok(json("[1]")))));
    assert_eq!(value.unwrap(), json("[1]"));
    let value = settled(wrap_async_llm_execution_intercept_fn(AsyncStage::Settled(Ok(json("1")))));
    assert_eq!(value.unwrap(), json("1"));
    let stream = |value| {
        settled(wrap_async_llm_stream_execution_intercept_fn(AsyncStage::Settled(value)))
    };
    assert_eq!(stream(Ok(json("[1, [2]]"))).unwrap(), vec!["1", "[2]"]);
    assert_eq!(
        stream(Ok(Json::Null)).unwrap_err().message(),
        "internal error: async stream intercept must resolve to an array"
    );
    let step = wrap_async_event_sanitize_fn(AsyncDecodedStage::<_, u8>::Settled(Ok(json("[]"))));
    assert!(matches!(step, AsyncDecodedStep::Decode(Json::Array(_))));
    let step = wrap_async_event_sanitize_fn(AsyncDecodedStage::<_, u8>::Settled(Err(
        FlowError::ScopeStackEmpty,
    )));
    assert!(matches!(step, AsyncDecodedStep::Finish(Err(FlowError::ScopeStackEmpty))));
    let message = |step: AsyncDecodedStep<u8>| match step {
        AsyncDecodedStep::Finish(result) => result.unwrap_err().message(),
        _ => panic!("decoding has failed"),
    };
    assert_eq!(
        message(wrap_async_event_sanitize_fn(AsyncDecodedStage::Decoded(Err("x".into())))),
        "internal error: invalid event fields: x"
    );
    assert_eq!(
        message(wrap_async_llm_request_intercept_fn(AsyncDecodedStage::Decoded(Err("x".into())))),
        "internal error: invalid LLM request intercept outcome: x"
    );
    assert_eq!(
        message(wrap_async_tool_execution_intercept_fn(AsyncDecodedStage::Decoded(Err(
            "x".into()
        )))),
        "internal error: invalid tool outcome: x"
    );
    let step = wrap_async_tool_execution_intercept_fn(AsyncDecodedStage::Decoded(Ok(5u8)));
    assert!(matches!(step, AsyncDecodedStep::Finish(Ok(5))));
}

#[test]
fn event_sanitizer_is_active_until_the_last_callback_leaves() {
    let mut active: usize = 0;
    assert!(!event_sanitizer_callback_active(active));
    let first = ActiveEventSanitizerCallback::enter(&mut active);
    let second = ActiveEventSanitizerCallback::enter(&mut active);
    first.leave(&mut active);
    assert!(event_sanitizer_callback_active(active));
    second.leave(&mut active);
    assert!(!event_sanitizer_callback_active(active));
}
