//! Completions, continuations and the helpers that read replies.

use nemo_relay_callbacks::callable::{
    json_or_null, json_result_from_ptr, ptr_to_json, ptr_to_opt_string,
};
use nemo_relay_callbacks::codec::LlmRequest;
use nemo_relay_callbacks::completion::{
    invoke_async_intercept, invoke_async_json,
    nemo_relay_async_completion_is_cancelled, nemo_relay_async_completion_reject,
    nemo_relay_async_completion_resolve_json, InterceptEvent, InterceptStep, InvocationEvent,
    InvocationStep,
    NemoRelayAsyncCallbackState, NemoRelayAsyncCompletion, SettleReport,
};
use nemo_relay_callbacks::error::{FlowError, FlowResult, NemoRelayStatus};
use nemo_relay_callbacks::json::Json;
use nemo_relay_callbacks::next::{
    collect_async_stream_for_completion, nemo_relay_async_next_invoke,
    nemo_relay_async_next_invoke_callback, next_report, replay_chunks, run_continuation,
    tool_continuation_result, AsyncNextInner, AsyncStreamCollection, CollectStep,
    ContinuationStage, NemoRelayAsyncNext, NextStage, NextStep,
    ASYNC_STREAM_MAX_CHUNKS, ASYNC_STREAM_MAX_SERIALIZED_BYTES,
};

type Sender = tokio::sync::oneshot::Sender<FlowResult<Json>>;
type ToolNext = fn(Json) -> FlowResult<Json>;
type LlmNext = fn(LlmRequest) -> FlowResult<Json>;
type StreamNext = fn(LlmRequest) -> Vec<FlowResult<Json>>;
type Inner = AsyncNextInner<ToolNext, LlmNext, StreamNext>;
type Next = NemoRelayAsyncNext<ToolNext, LlmNext, StreamNext, ()>;

fn c_bytes(text: &str) -> Option<Vec<u8>> {
    Some(text.as_bytes().to_vec())
}

fn json(text: &str) -> Json {
    Json::from_text(text).unwrap()
}

fn runtime() -> tokio::runtime::Runtime {
    tokio::runtime::Builder::new_current_thread()
        .build()
        .unwrap()
}

fn deliver(report: SettleReport<Sender>) -> NemoRelayStatus {
    if let Some(settlement) = report.settlement {
        let _ = settlement.sender.send(settlement.result);
    }
    report.status
}

fn decode_request(value: &Json) -> Result<LlmRequest, String> {
    let value: serde_json::Value =
        serde_json::from_str(&value.to_text()).map_err(|error| error.to_string())?;
    let headers = value.get("headers").filter(|headers| headers.is_object());
    match (headers, value.get("content")) {
        (Some(headers), Some(content)) => Ok(LlmRequest {
            headers: headers.to_string(),
            content: json(&content.to_string()),
        }),
        _ => Err("missing field".to_string()),
    }
}

fn collect(items: Vec<FlowResult<Json>>) -> FlowResult<Json> {
    let mut collection = AsyncStreamCollection::new();
    for item in items {
        match collect_async_stream_for_completion(collection, Some(item)) {
            CollectStep::Next(longer) => collection = longer,
            CollectStep::Finish(result) => return result,
        }
    }
    match collect_async_stream_for_completion(collection, None) {
        CollectStep::Finish(result) => result,
        CollectStep::Next(_) => panic!("the end of the stream ends the collection"),
    }
}

fn result_of(mut stage: ContinuationStage, items: Vec<FlowResult<Json>>) -> FlowResult<Json> {
    let mut items = items.into_iter();
    loop {
        stage = match run_continuation(stage) {
            CollectStep::Next(collection) => ContinuationStage::StreamItem {
                collection,
                item: items.next(),
            },
            CollectStep::Finish(result) => return result,
        };
    }
}

fn run_next(next: &Next, mut step: NextStep<LlmRequest>) -> FlowResult<Json> {
    loop {
        step = match (step, &next.inner) {
            (NextStep::Decode(value), _) => nemo_relay_async_next_invoke(
                NextStage::Decoded {
                    next,
                    request: decode_request(&value),
                },
                true,
            ),
            (NextStep::RunTool(value), AsyncNextInner::Tool(run)) => {
                return result_of(ContinuationStage::ToolRan(run(value).map(Ok)), Vec::new())
            }
            (NextStep::RunLlm(request), AsyncNextInner::Llm(run)) => {
                return result_of(ContinuationStage::LlmRan(run(request)), Vec::new())
            }
            (NextStep::RunLlmStream(request), AsyncNextInner::LlmStream(run)) => {
                return result_of(ContinuationStage::StreamOpened(Ok(())), run(request))
            }
            (NextStep::Refuse(status), _) => panic!("refused with {status:?}"),
            _ => panic!("the step does not fit the continuation"),
        }
    }
}

#[test]
fn test_callable_private_helper_paths() {
    let err = json_result_from_ptr(&None, &None, "fallback helper message").unwrap_err();
    assert!(err.message().contains("fallback helper message"));

    assert_eq!(ptr_to_opt_string(&None), None);

    assert_eq!(
        ptr_to_opt_string(&c_bytes("ffi-string")),
        Some("ffi-string".into())
    );
}

#[test]
fn async_completion_abi_rejects_invalid_duplicate_and_cancelled_settlements() {
    let runtime = runtime();
    let (sender, receiver) = tokio::sync::oneshot::channel();
    let mut completion = NemoRelayAsyncCompletion::new(sender);
    let invalid_json = c_bytes("not-json");
    assert_eq!(
        deliver(nemo_relay_async_completion_resolve_json(
            Some(&mut completion),
            &invalid_json
        )),
        NemoRelayStatus::InvalidJson
    );
    let value = c_bytes(r#"{"ok":true}"#);
    assert_eq!(
        deliver(nemo_relay_async_completion_resolve_json(
            Some(&mut completion),
            &value
        )),
        NemoRelayStatus::Success
    );
    assert_eq!(
        deliver(nemo_relay_async_completion_resolve_json(
            Some(&mut completion),
            &value
        )),
        NemoRelayStatus::InvalidArg
    );
    assert_eq!(
        runtime.block_on(receiver).unwrap().unwrap(),
        json(r#"{"ok": true}"#)
    );

    let (sender, receiver) = tokio::sync::oneshot::channel();
    let mut completion = NemoRelayAsyncCompletion::new(sender);
    assert_eq!(
        deliver(nemo_relay_async_completion_reject(
            Some(&mut completion),
            &None
        )),
        NemoRelayStatus::Success
    );
    assert!(runtime
        .block_on(receiver)
        .unwrap()
        .unwrap_err()
        .message()
        .contains("async C callback rejected"));

    let (sender, _receiver) = tokio::sync::oneshot::channel::<FlowResult<Json>>();
    let mut completion = NemoRelayAsyncCompletion::new(sender);
    match invoke_async_json(
        &completion,
        InvocationEvent::Start {
            invocation: json("{}"),
        },
    ) {
        InvocationStep::Call { invocation_json } => assert_eq!(invocation_json, "{}"),
        _ => panic!("the callback must be called"),
    }
    match invoke_async_json(
        &completion,
        InvocationEvent::CallbackReturned(NemoRelayAsyncCallbackState::Pending),
    ) {
        InvocationStep::Wait { release_references } => assert!(!release_references),
        InvocationStep::Finish { result, .. } => {
            panic!("pending callback unexpectedly settled: {result:?}")
        }
        InvocationStep::Call { .. } => panic!("the callback was called before"),
    }
    completion.cancel();
    assert!(nemo_relay_async_completion_is_cancelled(Some(&completion)));
    assert!(nemo_relay_async_completion_is_cancelled::<Sender>(None));
    let value = c_bytes(r#"{"late":true}"#);
    assert_eq!(
        deliver(nemo_relay_async_completion_resolve_json(
            Some(&mut completion),
            &value
        )),
        NemoRelayStatus::InvalidArg
    );
    assert_eq!(
        deliver(nemo_relay_async_completion_reject(
            Some(&mut completion),
            &None
        )),
        NemoRelayStatus::InvalidArg
    );
}

#[test]
fn async_callback_wrappers_reject_complete_callbacks_without_settlement() {
    let (sender, _receiver) = tokio::sync::oneshot::channel::<FlowResult<Json>>();
    let completion = NemoRelayAsyncCompletion::new(sender);
    let step = invoke_async_json(
        &completion,
        InvocationEvent::CallbackReturned(NemoRelayAsyncCallbackState::Complete),
    );
    let error = match step {
        InvocationStep::Finish {
            release_references,
            result,
        } => {
            assert!(release_references);
            result.unwrap_err()
        }
        _ => panic!("nothing to wait for"),
    };
    assert!(error
        .message()
        .contains("returned Complete without settling"));
}

#[test]
fn async_next_invocation_supports_tool_llm_and_stream_continuations() {
    let runtime = runtime();
    let cases: Vec<(Inner, &str, Json)> = vec![
        (
            AsyncNextInner::Tool(|value| Ok(value)),
            r#"{"tool":true}"#,
            json(r#"{"tool": true}"#),
        ),
        (
            AsyncNextInner::Llm(|request| Ok(request.content)),
            r#"{"headers":{},"content":{"llm":true}}"#,
            json(r#"{"llm": true}"#),
        ),
        (
            AsyncNextInner::LlmStream(|_request| {
                vec![
                    Ok(Json::from_text(r#"{"chunk": 1}"#).unwrap()),
                    Ok(Json::from_text(r#"{"chunk": 2}"#).unwrap()),
                ]
            }),
            r#"{"headers":{},"content":{"stream":true}}"#,
            json(r#"[{"chunk": 1}, {"chunk": 2}]"#),
        ),
    ];

    for (inner, invocation, expected) in cases {
        let next = NemoRelayAsyncNext { inner, runtime: () };
        let (sender, receiver) = tokio::sync::oneshot::channel();
        let mut completion = NemoRelayAsyncCompletion::new(sender);
        let step = nemo_relay_async_next_invoke(
            NextStage::Start {
                next: Some(&next),
                invocation_json: c_bytes(invocation),
            },
            true,
        );
        let result = run_next(&next, step);
        if let Some(settlement) = completion.settle(result) {
            let _ = settlement.sender.send(settlement.result);
        }
        assert_eq!(runtime.block_on(receiver).unwrap().unwrap(), expected);
    }
}

#[test]
fn async_next_callback_reports_tool_llm_and_stream_results() {
    let cases: Vec<(Inner, &str, Json)> = vec![
        (
            AsyncNextInner::Tool(|value| Ok(value)),
            r#"{"tool":true}"#,
            json(r#"{"tool": true}"#),
        ),
        (
            AsyncNextInner::Llm(|request| Ok(request.content)),
            r#"{"headers":{},"content":{"llm":true}}"#,
            json(r#"{"llm": true}"#),
        ),
        (
            AsyncNextInner::LlmStream(|_request| {
                vec![Ok(Json::from_text(r#"{"stream": true}"#).unwrap())]
            }),
            r#"{"headers":{},"content":{}}"#,
            json(r#"[{ "stream": true }]"#),
        ),
    ];
    for (inner, invocation, expected) in cases {
        let next = NemoRelayAsyncNext { inner, runtime: () };
        let step = nemo_relay_async_next_invoke_callback(NextStage::Start {
            next: Some(&next),
            invocation_json: c_bytes(invocation),
        });
        let report = next_report(run_next(&next, step));
        assert_eq!(report.error_message, None);
        assert_eq!(json(&report.value_json.unwrap()), expected);
    }

    let next: Next = NemoRelayAsyncNext {
        inner: AsyncNextInner::Tool(|_value| Err(FlowError::Internal("next failed".into()))),
        runtime: (),
    };
    let step = nemo_relay_async_next_invoke_callback(NextStage::Start {
        next: Some(&next),
        invocation_json: c_bytes("{}"),
    });
    let report = next_report(run_next(&next, step));
    assert_eq!(report.value_json, None);
    assert!(report.error_message.unwrap().contains("next failed"));
}

#[test]
fn completion_settles_once_whatever_is_tried() {
    let mut completion = NemoRelayAsyncCompletion::new(7u8);
    let rejected = nemo_relay_async_completion_reject(Some(&mut completion), &c_bytes("no"));
    assert_eq!(rejected.status, NemoRelayStatus::Success);
    let settlement = rejected.settlement.unwrap();
    assert_eq!(settlement.sender, 7);
    assert_eq!(
        settlement.result.unwrap_err().message(),
        "internal error: no"
    );
    assert!(completion.is_settled());
    assert!(completion.settle(Ok(Json::Null)).is_none());
    let resolved = nemo_relay_async_completion_resolve_json(Some(&mut completion), &c_bytes("1"));
    assert_eq!(resolved.status, NemoRelayStatus::InvalidArg);
    assert!(resolved.settlement.is_none());
}

#[test]
fn null_completion_is_reported() {
    let resolved = nemo_relay_async_completion_resolve_json::<u8>(None, &c_bytes("1"));
    assert_eq!(resolved.status, NemoRelayStatus::NullPointer);
    let rejected = nemo_relay_async_completion_reject::<u8>(None, &None);
    assert_eq!(rejected.status, NemoRelayStatus::NullPointer);
}

#[test]
fn resolving_needs_utf8_json_behind_the_pointer() {
    let mut completion = NemoRelayAsyncCompletion::new(7u8);
    for value in [None, Some(vec![0xff, 0xfe]), c_bytes(""), c_bytes("{")] {
        let report = nemo_relay_async_completion_resolve_json(Some(&mut completion), &value);
        assert_eq!(report.status, NemoRelayStatus::InvalidJson);
        assert!(!completion.is_settled());
    }
}

#[test]
fn rejection_patches_what_is_not_utf8() {
    let mut completion = NemoRelayAsyncCompletion::new(7u8);
    let message = Some(vec![b'a', 0xff, b'b']);
    let report = nemo_relay_async_completion_reject(Some(&mut completion), &message);
    assert_eq!(
        report.settlement.unwrap().result.unwrap_err().message(),
        "internal error: a\u{fffd}b"
    );
}

#[test]
fn continuation_settles_a_cancelled_completion() {
    let mut completion = NemoRelayAsyncCompletion::new(7u8);
    completion.cancel();
    let settlement = completion.settle(Ok(Json::Null)).unwrap();
    assert_eq!(settlement.sender, 7);
    assert_eq!(settlement.result.unwrap(), Json::Null);
}

#[test]
fn invocation_ends_with_what_was_received() {
    let mut completion = NemoRelayAsyncCompletion::new(7u8);
    let start = InterceptEvent::Start {
        runtime: Ok('r'),
        invocation: json("[1, 2]"),
    };
    match invoke_async_intercept(&completion, start) {
        InterceptStep::Call {
            runtime,
            invocation_json,
        } => assert_eq!((runtime, invocation_json.as_str()), ('r', "[1,2]")),
        _ => panic!("the callback must be called"),
    }
    let _ = nemo_relay_async_completion_resolve_json(Some(&mut completion), &c_bytes("1"));
    match invoke_async_intercept::<u8, char>(
        &completion,
        InterceptEvent::CallbackReturned(NemoRelayAsyncCallbackState::Complete),
    ) {
        InterceptStep::Wait { release_references } => assert!(release_references),
        _ => panic!("the completion is settled"),
    }
    match invoke_async_intercept::<u8, char>(
        &completion,
        InterceptEvent::Received(Some(Ok(json("1")))),
    ) {
        InterceptStep::Finish {
            release_references,
            result,
        } => {
            assert!(!release_references);
            assert_eq!(result.unwrap(), Json::Other("1".into()));
        }
        _ => panic!("the wait is over"),
    }
}

#[test]
fn awaited_invocation_is_not_cancelled() {
    let mut completion = NemoRelayAsyncCompletion::new(7u8);
    let pending = InvocationEvent::CallbackReturned(NemoRelayAsyncCallbackState::Pending);
    assert!(matches!(
        invoke_async_json(&completion, pending),
        InvocationStep::Wait { release_references: false }
    ));
    let report = nemo_relay_async_completion_resolve_json(Some(&mut completion), &c_bytes("1"));
    assert_eq!(report.status, NemoRelayStatus::Success);
    let received = InvocationEvent::Received(Some(report.settlement.unwrap().result));
    assert!(matches!(
        invoke_async_json(&completion, received),
        InvocationStep::Finish { release_references: false, result: Ok(_) }
    ));
    assert!(!nemo_relay_async_completion_is_cancelled(Some(&completion)));
}

#[test]
fn invocation_fails_when_the_completion_is_dropped() {
    let completion = NemoRelayAsyncCompletion::new(7u8);
    let json_message = |event| match invoke_async_json(&completion, event) {
        InvocationStep::Finish { result, .. } => result.unwrap_err().message(),
        _ => panic!("the invocation must fail"),
    };
    let intercept_message = |event| match invoke_async_intercept::<u8, char>(&completion, event) {
        InterceptStep::Finish { result, .. } => result.unwrap_err().message(),
        _ => panic!("the invocation must fail"),
    };
    assert_eq!(
        json_message(InvocationEvent::Received(None)),
        "internal error: async C callback dropped without settling"
    );
    assert_eq!(
        intercept_message(InterceptEvent::Received(None)),
        "internal error: async C intercept dropped without settling"
    );
    assert_eq!(
        intercept_message(InterceptEvent::CallbackReturned(
            NemoRelayAsyncCallbackState::Complete
        )),
        "internal error: async C intercept returned Complete without settling"
    );
}

#[test]
fn intercept_needs_a_runtime() {
    let completion = NemoRelayAsyncCompletion::new(7u8);
    let start = InterceptEvent::<char>::Start {
        runtime: Err("none here".into()),
        invocation: json("{}"),
    };
    match invoke_async_intercept(&completion, start) {
        InterceptStep::Finish {
            release_references,
            result,
        } => {
            assert!(!release_references);
            assert_eq!(
                result.unwrap_err().message(),
                "internal error: async C intercept requires a Tokio runtime: none here"
            );
        }
        _ => panic!("the callback must not be called"),
    }
}

#[test]
fn refused_next_schedules_nothing() {
    let tool: Next = NemoRelayAsyncNext {
        inner: AsyncNextInner::Tool(|value| Ok(value)),
        runtime: (),
    };
    let llm: Next = NemoRelayAsyncNext {
        inner: AsyncNextInner::Llm(|request| Ok(request.content)),
        runtime: (),
    };
    let status = |step: NextStep<LlmRequest>| match step {
        NextStep::Refuse(status) => Some(status),
        _ => None,
    };
    let start = |next, text| NextStage::Start {
        next,
        invocation_json: text,
    };
    assert_eq!(
        status(nemo_relay_async_next_invoke(start(None::<&Next>, None), true)),
        Some(NemoRelayStatus::NullPointer)
    );
    assert_eq!(
        status(nemo_relay_async_next_invoke(
            start(Some(&tool), c_bytes("{}")),
            false
        )),
        Some(NemoRelayStatus::NullPointer)
    );
    assert_eq!(
        status(nemo_relay_async_next_invoke(
            start(Some(&tool), c_bytes("{")),
            true
        )),
        Some(NemoRelayStatus::InvalidJson)
    );
    assert!(matches!(
        nemo_relay_async_next_invoke::<_, _, _, _, LlmRequest>(
            start(Some(&llm), c_bytes("3")),
            true
        ),
        NextStep::Decode(Json::Other(_))
    ));
    assert_eq!(
        status(nemo_relay_async_next_invoke_callback(NextStage::Decoded {
            next: &llm,
            request: decode_request(&json("3")),
        })),
        Some(NemoRelayStatus::InvalidJson)
    );
    assert_eq!(
        status(nemo_relay_async_next_invoke_callback(NextStage::Decoded {
            next: &tool,
            request: decode_request(&json(r#"{"headers":{},"content":1}"#)),
        })),
        Some(NemoRelayStatus::InvalidArg)
    );
}

#[test]
fn unopened_stream_fails_the_continuation() {
    let stage = ContinuationStage::StreamOpened(Err(FlowError::NotFound("model".into())));
    assert_eq!(
        result_of(stage, Vec::new()).unwrap_err().message(),
        "not found: model"
    );
}

#[test]
fn unwritable_tool_outcome_is_an_error() {
    assert_eq!(
        tool_continuation_result(Ok(Err("key must be a string".into())))
            .unwrap_err()
            .message(),
        "internal error: key must be a string"
    );
    assert_eq!(
        tool_continuation_result(Err(FlowError::ScopeStackEmpty))
            .unwrap_err()
            .message(),
        "scope stack empty"
    );
}

#[test]
fn report_strings_end_at_no_embedded_nul() {
    let report = next_report(Err(FlowError::Internal("a\0b".into())));
    assert_eq!(report.error_message, Some(String::new()));
}

#[test]
fn stream_of_4096_chunks_is_collected_and_replayed() {
    let items: Vec<FlowResult<Json>> = (0..ASYNC_STREAM_MAX_CHUNKS)
        .map(|i| Ok(json(&i.to_string())))
        .collect();
    let collected = collect(items).unwrap();
    let chunks = replay_chunks(collected).unwrap();
    assert_eq!(chunks.len(), 4096);
    assert_eq!(chunks[0], "0");
    assert_eq!(chunks[4095], "4095");
}

#[test]
fn stream_beyond_4096_chunks_is_refused() {
    let items: Vec<FlowResult<Json>> = (0..ASYNC_STREAM_MAX_CHUNKS + 1)
        .map(|i| Ok(json(&i.to_string())))
        .collect();
    assert_eq!(
        collect(items).unwrap_err().message(),
        "internal error: async stream continuation exceeded the 4096-chunk completion limit"
    );
}

#[test]
fn stream_bytes_are_counted_as_serialized() {
    let half = "x".repeat(ASYNC_STREAM_MAX_SERIALIZED_BYTES / 2 - 2);
    let fits = vec![
        Ok(Json::String(half.clone())),
        Ok(Json::String(half.clone())),
    ];
    assert!(collect(fits).is_ok());
    let exceeds = vec![
        Ok(Json::String(half.clone())),
        Ok(Json::String(half)),
        Ok(json("1")),
    ];
    assert_eq!(
        collect(exceeds).unwrap_err().message(),
        "internal error: async stream continuation exceeded the 16777216-byte completion limit"
    );
}

#[test]
fn stream_error_ends_the_collection() {
    let items = vec![
        Ok(json("1")),
        Err(FlowError::NotFound("model".into())),
        Ok(json("2")),
    ];
    assert_eq!(collect(items).unwrap_err().message(), "not found: model");
}

#[test]
fn only_arrays_are_replayed() {
    assert_eq!(
        replay_chunks(json("{}")).unwrap_err().message(),
        "internal error: async stream intercept must resolve to an array"
    );
}

#[test]
fn replies_are_read_leniently() {
    assert_eq!(ptr_to_json(&None), Json::Null);
    assert_eq!(ptr_to_json(&c_bytes("oops")), Json::Null);
    assert_eq!(
        ptr_to_json(&Some(vec![b'"', 0xff, b'"'])),
        Json::String("\u{fffd}".into())
    );
    assert_eq!(
        json_result_from_ptr(&None, &Some("set by the callback".into()), "fallback")
            .unwrap_err()
            .message(),
        "internal error: set by the callback"
    );
    assert_eq!(
        json_result_from_ptr(&c_bytes("oops"), &Some("ignored".into()), "fallback").unwrap(),
        Json::Null
    );
}

#[test]
fn parsed_reply_is_null_where_parsing_failed() {
    assert_eq!(json_or_null(Ok(Json::String("x".into()))), Json::String("x".into()));
    assert_eq!(json_or_null(Err("no JSON".into())), Json::Null);
}

#[test]
fn completion_settles_once_with_a_parsed_value() {
    let mut completion = NemoRelayAsyncCompletion::new('s');
    let report = completion.resolve(None);
    assert_eq!(report.status, NemoRelayStatus::InvalidJson);
    assert!(report.settlement.is_none() && !completion.is_settled());
    let report = completion.resolve(Some(Json::Other("1".into())));
    assert_eq!(report.status, NemoRelayStatus::Success);
    let settlement = report.settlement.unwrap();
    assert_eq!(settlement.sender, 's');
    assert_eq!(settlement.result.unwrap(), Json::Other("1".into()));
    assert_eq!(completion.resolve(Some(Json::Null)).status, NemoRelayStatus::InvalidArg);
    assert_eq!(completion.reject("late".into()).status, NemoRelayStatus::InvalidArg);

    let mut completion = NemoRelayAsyncCompletion::new('s');
    let report = completion.reject("no".into());
    assert_eq!(report.status, NemoRelayStatus::Success);
    let error = report.settlement.unwrap().result.unwrap_err();
    assert_eq!(error.message(), "internal error: no");

    let mut completion = NemoRelayAsyncCompletion::new('s');
    completion.cancel();
    assert_eq!(completion.resolve(None).status, NemoRelayStatus::InvalidArg);
    assert_eq!(completion.reject("no".into()).status, NemoRelayStatus::InvalidArg);
    assert!(!completion.is_settled());
}

#[test]
fn next_goes_on_with_a_parsed_invocation() {
    let step = |inner: AsyncNextInner<u8, u8, u8>, invocation: Option<Json>| {
        NemoRelayAsyncNext { inner, runtime: () }.invoke::<u8>(invocation)
    };
    let value = || Some(Json::Other("{}".into()));
    assert!(matches!(
        step(AsyncNextInner::Tool(1), value()),
        NextStep::RunTool(Json::Other(text)) if text == "{}"
    ));
    assert!(matches!(
        step(AsyncNextInner::Llm(1), value()),
        NextStep::Decode(Json::Other(text)) if text == "{}"
    ));
    assert!(matches!(
        step(AsyncNextInner::LlmStream(1), value()),
        NextStep::Decode(Json::Other(text)) if text == "{}"
    ));
    assert!(matches!(
        step(AsyncNextInner::Tool(1), None),
        NextStep::Refuse(NemoRelayStatus::InvalidJson)
    ));
}
