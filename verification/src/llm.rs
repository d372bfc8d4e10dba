//! Synchronous C callbacks around LLM calls and events: executions, guardrails,
//! request intercepts, collectors and finalizers.

use vstd::prelude::*;
use vstd::utf8::*;

use crate::callable::{
    calls, decode_reply, decodes_reply, end_decoded_call, ends_decoded_call, finish, finishes,
    json_result_from_ptr, last_error_or, ptr_to_json, reply_error, reply_json, reply_result,
    reply_verdict, verdict, CallReply, CallStage, CallStep, DecodedCallStage, DecodedCallStep,
};
use crate::error::{
    internal, internal_error, internal_message, outcome, FlowError, FlowErrorModel, FlowResult,
    NemoRelayStatus,
};
use crate::json::{json_to_c_string, Json, JsonModel};
use crate::text::{c_string, c_text, lenient_text, strict_text, utf8_error};

verus! {

/// The JSON text of a request: null where it could not be written.
pub open spec fn request_text(request: Option<JsonModel>) -> Seq<char> {
    match request {
        Some(value) => value.text(),
        None => JsonModel::Null.text(),
    }
}

fn request_c_string(request: &Option<Json>) -> (c: String)
    ensures
        c@ == c_text(request_text(request.deep_view())),
{
    match request {
        Some(value) => json_to_c_string(value),
        None => json_to_c_string(&Json::Null),
    }
}

/// A result as a stream of one chunk.
pub open spec fn single_chunk(result: Result<JsonModel, FlowErrorModel>) -> Result<
    Seq<JsonModel>,
    FlowErrorModel,
> {
    match result {
        Ok(value) => Ok(seq![value]),
        Err(error) => Err(error),
    }
}

fn one_chunk(result: FlowResult<Json>) -> (chunks: FlowResult<Vec<Json>>)
    ensures
        outcome(chunks) == single_chunk(outcome(result)),
{
    match result {
        Ok(value) => {
            let ghost chunk = value.deep_view();
            let mut chunks: Vec<Json> = Vec::new();
            chunks.push(value);
            assert(chunks.deep_view() =~= seq![chunk]);
            Ok(chunks)
        },
        Err(error) => Err(error),
    }
}

/// An LLM execution: the callback gets the request as JSON and returns the response.
pub fn wrap_llm_exec_fn(stage: CallStage<Option<Json>>) -> (step: CallStep<String, Json>)
    ensures
        match stage {
            CallStage::Start(request) => calls(
                step,
                false,
                |args: String| args@ == c_text(request_text(request.deep_view())),
            ),
            CallStage::Returned(reply) => finishes(
                step,
                reply,
                reply_result(
                    reply.result.deep_view(),
                    reply.last_error.deep_view(),
                    "LLM execution callback failed"@,
                ),
            ),
        },
{
    match stage {
        CallStage::Start(request) => CallStep::Call {
            clear_last_error: false,
            args: request_c_string(&request),
        },
        CallStage::Returned(reply) => finish(
            &reply,
            json_result_from_ptr(&reply.result, &reply.last_error, "LLM execution callback failed"),
        ),
    }
}

/// An LLM execution that answers as a stream: the one value the callback returns is
/// the one chunk.
pub fn wrap_llm_stream_exec_fn(stage: CallStage<Option<Json>>) -> (step: CallStep<
    String,
    Vec<Json>,
>)
    ensures
        match stage {
            CallStage::Start(request) => calls(
                step,
                false,
                |args: String| args@ == c_text(request_text(request.deep_view())),
            ),
            CallStage::Returned(reply) => finishes(
                step,
                reply,
                single_chunk(
                    reply_result(
                        reply.result.deep_view(),
                        reply.last_error.deep_view(),
                        "LLM stream execution callback failed"@,
                    ),
                ),
            ),
        },
{
    match stage {
        CallStage::Start(request) => CallStep::Call {
            clear_last_error: false,
            args: request_c_string(&request),
        },
        CallStage::Returned(reply) => finish(
            &reply,
            one_chunk(
                json_result_from_ptr(
                    &reply.result,
                    &reply.last_error,
                    "LLM stream execution callback failed",
                ),
            ),
        ),
    }
}

/// An LLM execution intercept: the callback gets the request as JSON, may call the
/// next layer, and returns the response.
pub fn wrap_llm_exec_intercept_fn(stage: CallStage<Option<Json>>) -> (step: CallStep<String, Json>)
    ensures
        match stage {
            CallStage::Start(request) => calls(
                step,
                false,
                |args: String| args@ == c_text(request_text(request.deep_view())),
            ),
            CallStage::Returned(reply) => finishes(
                step,
                reply,
                reply_result(
                    reply.result.deep_view(),
                    reply.last_error.deep_view(),
                    "LLM execution intercept callback failed"@,
                ),
            ),
        },
{
    match stage {
        CallStage::Start(request) => CallStep::Call {
            clear_last_error: false,
            args: request_c_string(&request),
        },
        CallStage::Returned(reply) => finish(
            &reply,
            json_result_from_ptr(
                &reply.result,
                &reply.last_error,
                "LLM execution intercept callback failed",
            ),
        ),
    }
}

/// A streaming LLM execution intercept: the one value the callback returns is the
/// one chunk.
pub fn wrap_llm_stream_exec_intercept_fn(stage: CallStage<Option<Json>>) -> (step: CallStep<
    String,
    Vec<Json>,
>)
    ensures
        match stage {
            CallStage::Start(request) => calls(
                step,
                false,
                |args: String| args@ == c_text(request_text(request.deep_view())),
            ),
            CallStage::Returned(reply) => finishes(
                step,
                reply,
                single_chunk(
                    reply_result(
                        reply.result.deep_view(),
                        reply.last_error.deep_view(),
                        "LLM stream execution intercept callback failed"@,
                    ),
                ),
            ),
        },
{
    match stage {
        CallStage::Start(request) => CallStep::Call {
            clear_last_error: false,
            args: request_c_string(&request),
        },
        CallStage::Returned(reply) => finish(
            &reply,
            one_chunk(
                json_result_from_ptr(
                    &reply.result,
                    &reply.last_error,
                    "LLM stream execution intercept callback failed",
                ),
            ),
        ),
    }
}

/// A conditional LLM guardrail: a returned text is the reason to reject. The
/// request is handed over as it is.
pub fn wrap_llm_conditional_fn<Q>(stage: CallStage<Q>) -> (step: CallStep<Q, Option<String>>)
    ensures
        match stage {
            CallStage::Start(request) => step == (CallStep::<Q, Option<String>>::Call {
                clear_last_error: true,
                args: request,
            }),
            CallStage::Returned(reply) => finishes(
                step,
                reply,
                reply_verdict(reply.result.deep_view(), reply.last_error.deep_view()),
            ),
        },
{
    match stage {
        CallStage::Start(request) => CallStep::Call { clear_last_error: true, args: request },
        CallStage::Returned(reply) => finish(&reply, verdict(&reply)),
    }
}

/// A stream collector: the callback gets each chunk as JSON. It cannot fail.
pub fn wrap_collector_fn(stage: CallStage<Json>) -> (step: CallStep<String, ()>)
    ensures
        match stage {
            CallStage::Start(chunk) => calls(
                step,
                false,
                |args: String| args@ == c_text(chunk.deep_view().text()),
            ),
            CallStage::Returned(reply) => finishes(step, reply, Ok(())),
        },
{
    match stage {
        CallStage::Start(chunk) => CallStep::Call {
            clear_last_error: false,
            args: json_to_c_string(&chunk),
        },
        CallStage::Returned(reply) => finish(&reply, Ok(())),
    }
}

/// A stream finalizer: the callback returns the aggregated response. It cannot
/// fail; null stands for what is not JSON.
pub fn wrap_finalizer_fn(stage: CallStage<()>) -> (step: CallStep<(), Json>)
    ensures
        match stage {
            CallStage::Start(_) => step == (CallStep::<(), Json>::Call {
                clear_last_error: false,
                args: (),
            }),
            CallStage::Returned(reply) => finishes(
                step,
                reply,
                Ok(reply_json(reply.result.deep_view())),
            ),
        },
{
    match stage {
        CallStage::Start(_) => CallStep::Call { clear_last_error: false, args: () },
        CallStage::Returned(reply) => finish(&reply, Ok(ptr_to_json(&reply.result))),
    }
}

/// An event and the fields of it that can be sanitized; `None` where the fields
/// could not be written as JSON.
pub struct EventFields<E> {
    /// The event.
    pub event: E,
    /// Its fields.
    pub fields: Option<Json>,
}

/// The arguments of an event sanitizer.
pub struct EventSanitizeArgs<E> {
    /// The event.
    pub event: E,
    /// The fields, as the contents of a C string.
    pub fields_json: String,
}

/// An event sanitizer: the callback gets the event and its fields and returns the
/// fields to publish, which are decoded afterwards.
pub fn wrap_event_sanitize_fn<E, V>(stage: DecodedCallStage<EventFields<E>, V>) -> (step:
    DecodedCallStep<EventSanitizeArgs<E>, V>)
    ensures
        match stage {
            DecodedCallStage::Start(call) => step matches DecodedCallStep::Call {
                clear_last_error,
                args,
            } && !clear_last_error && args.event == call.event && args.fields_json@ == c_text(
                request_text(call.fields.deep_view()),
            ),
            DecodedCallStage::Returned(reply) => decodes_reply(
                step,
                reply,
                Ok(reply_json(reply.result.deep_view()).text()),
            ),
            DecodedCallStage::Decoded(decoded) => ends_decoded_call(
                step,
                decoded,
                "invalid event sanitizer result: "@,
            ),
        },
{
    match stage {
        DecodedCallStage::Start(call) => DecodedCallStep::Call {
            clear_last_error: false,
            args: EventSanitizeArgs {
                event: call.event,
                fields_json: request_c_string(&call.fields),
            },
        },
        DecodedCallStage::Returned(reply) => decode_reply(
            &reply,
            Ok(ptr_to_json(&reply.result).to_text()),
        ),
        DecodedCallStage::Decoded(decoded) => end_decoded_call(
            decoded,
            "invalid event sanitizer result: ",
        ),
    }
}

/// How far an LLM request intercept has come.
pub enum RequestInterceptStage<Q, V> {
    /// What the caller passed in.
    Start {
        /// The intercept's name.
        name: String,
        /// The request, handed over as it is.
        request: Q,
        /// The annotated request, if a codec resolved it; the inner `None` where
        /// it could not be written as JSON.
        annotated: Option<Option<String>>,
    },
    /// What the callback left behind: its status, the outcome it wrote, and the
    /// last error message.
    Returned {
        /// The status.
        status: NemoRelayStatus,
        /// The outcome, as a C string.
        outcome: Option<Vec<u8>>,
        /// The last error message.
        last_error: Option<String>,
    },
    /// The decoded outcome, or why it could not be decoded.
    Decoded(Result<V, String>),
}

/// How an LLM request intercept goes on. Where `release_outcome` is set, the
/// outcome string has to be released now.
pub enum RequestInterceptStep<Q, V> {
    /// Clear the last error message and call the callback.
    Call {
        /// The intercept's name, as a C string.
        name: String,
        /// The request.
        request: Q,
        /// The annotated request as a C string; `None` for a null pointer.
        annotated_json: Option<String>,
    },
    /// Decode this text as an outcome.
    Decode {
        /// The text.
        text: String,
        /// Whether the outcome string is released now.
        release_outcome: bool,
    },
    /// The call is over.
    Finish {
        /// Its result.
        result: FlowResult<V>,
        /// Whether the outcome string is released now.
        release_outcome: bool,
    },
}

/// The annotated request as a C string.
pub open spec fn annotated_text(annotated: Option<Option<Seq<char>>>) -> Option<Seq<char>> {
    match annotated {
        Some(Some(text)) => Some(c_text(text)),
        Some(None) => Some(c_text("null"@)),
        None => None,
    }
}

/// The text of the outcome that a request intercept wrote, or why there is none:
/// the callback failed, wrote nothing, or wrote something that is not UTF-8.
pub open spec fn intercept_outcome(
    status: NemoRelayStatus,
    outcome: Option<Seq<u8>>,
    last_error: Option<Seq<char>>,
) -> Result<Seq<char>, FlowErrorModel> {
    if status != NemoRelayStatus::Success {
        Err(reply_error(last_error, "request intercept callback failed"@))
    } else {
        match outcome {
            None => Err(
                FlowErrorModel::Internal("request intercept returned null out_outcome_json"@),
            ),
            Some(bytes) => if valid_utf8(bytes) {
                Ok(decode_utf8(bytes))
            } else {
                Err(internal("invalid outcome UTF-8: "@, utf8_error(bytes)))
            },
        }
    }
}

/// An LLM request intercept: the callback writes one outcome. Whatever its status,
/// an outcome that was written is released exactly once, when it has been read.
pub fn wrap_llm_request_intercept_fn<Q, V>(stage: RequestInterceptStage<Q, V>) -> (step:
    RequestInterceptStep<Q, V>)
    ensures
        match stage {
            RequestInterceptStage::Start { name, request, annotated } => step matches
                RequestInterceptStep::Call { name: c_name, request: handed, annotated_json }
                && c_name@ == c_text(name@) && handed == request && annotated_json.deep_view()
                == annotated_text(annotated.deep_view()),
            RequestInterceptStage::Returned { status, outcome, last_error } => {
                match intercept_outcome(status, outcome.deep_view(), last_error.deep_view()) {
                    Ok(expected) => step matches RequestInterceptStep::Decode {
                        text,
                        release_outcome,
                    } && text@ == expected && release_outcome,
                    Err(error) => step matches RequestInterceptStep::Finish {
                        result: Err(failure),
                        release_outcome,
                    } && failure.deep_view() == error && release_outcome == outcome is Some,
                }
            },
            RequestInterceptStage::Decoded(Ok(value)) => step == (RequestInterceptStep::<
                Q,
                V,
            >::Finish { result: Ok(value), release_outcome: false }),
            RequestInterceptStage::Decoded(Err(error)) => step matches
                RequestInterceptStep::Finish { result: Err(failure), release_outcome }
                && failure.deep_view() == internal(
                "invalid LLM request intercept outcome JSON: "@,
                error@,
            ) && !release_outcome,
        },
{
    match stage {
        RequestInterceptStage::Start { name, request, annotated } => {
            let annotated_json = match &annotated {
                Some(Some(text)) => Some(c_string(text.as_str())),
                Some(None) => Some(c_string("null")),
                None => None,
            };
            RequestInterceptStep::Call { name: c_string(name.as_str()), request, annotated_json }
        },
        RequestInterceptStage::Returned { status, outcome, last_error } => {
            if status != NemoRelayStatus::Success {
                return RequestInterceptStep::Finish {
                    result: Err(last_error_or(&last_error, "request intercept callback failed")),
                    release_outcome: outcome.is_some(),
                };
            }
            match &outcome {
                None => RequestInterceptStep::Finish {
                    result: Err(
                        internal_message("request intercept returned null out_outcome_json"),
                    ),
                    release_outcome: false,
                },
                Some(bytes) => {
                    assert(bytes.deep_view() =~= bytes@);
                    match strict_text(bytes.as_slice()) {
                        Ok(text) => RequestInterceptStep::Decode { text, release_outcome: true },
                        Err(error) => RequestInterceptStep::Finish {
                            result: Err(
                                internal_error("invalid outcome UTF-8: ", error.as_str()),
                            ),
                            release_outcome: true,
                        },
                    }
                },
            }
        },
        RequestInterceptStage::Decoded(Ok(value)) => RequestInterceptStep::Finish {
            result: Ok(value),
            release_outcome: false,
        },
        RequestInterceptStage::Decoded(Err(error)) => RequestInterceptStep::Finish {
            result: Err(
                internal_error("invalid LLM request intercept outcome JSON: ", error.as_str()),
            ),
            release_outcome: false,
        },
    }
}

/// A request is written as the text of its value, whole; only one that could not be
/// written stands as null. A value as a stream is one chunk, and an error stays one.
pub proof fn law_request_text_is_the_whole_request(value: JsonModel, error: FlowErrorModel)
    ensures
        request_text(Some(value)) == value.text(),
        request_text(None) == "null"@,
        single_chunk(Ok(value)) == Ok::<Seq<JsonModel>, FlowErrorModel>(seq![value]),
        single_chunk(Err(error)) == Err::<Seq<JsonModel>, FlowErrorModel>(error),
{
}

/// Every LLM execution, streaming or not, intercept or not, is called with the whole text
/// of its request, and an old error message is left for it to see.
pub proof fn law_llm_execution_gets_the_request(
    request: Option<Json>,
    execution: CallStep<String, Json>,
    intercept: CallStep<String, Json>,
    stream: CallStep<String, Vec<Json>>,
    stream_intercept: CallStep<String, Vec<Json>>,
)
    requires
        call_ensures(wrap_llm_exec_fn, (CallStage::Start(request),), execution),
        call_ensures(wrap_llm_exec_intercept_fn, (CallStage::Start(request),), intercept),
        call_ensures(wrap_llm_stream_exec_fn, (CallStage::Start(request),), stream),
        call_ensures(
            wrap_llm_stream_exec_intercept_fn,
            (CallStage::Start(request),),
            stream_intercept,
        ),
    ensures
        ({
            let text = match request {
                Some(value) => c_text(value.deep_view().text()),
                None => c_text("null"@),
            };
            &&& execution matches CallStep::Call { clear_last_error, args } && args@ == text
                && !clear_last_error
            &&& intercept matches CallStep::Call { clear_last_error, args } && args@ == text
                && !clear_last_error
            &&& stream matches CallStep::Call { clear_last_error, args } && args@ == text
                && !clear_last_error
            &&& stream_intercept matches CallStep::Call { clear_last_error, args } && args@ == text
                && !clear_last_error
        }),
{
}

/// What an LLM execution or an intercept of it returns is the response, as its text
/// reads; returning nothing fails the call in the words of the last error message, or
/// else in words of its own. A returned C string is released.
pub proof fn law_llm_reply_is_the_response(
    reply: CallReply,
    execution: CallStep<String, Json>,
    intercept: CallStep<String, Json>,
)
    requires
        call_ensures(wrap_llm_exec_fn, (CallStage::<Option<Json>>::Returned(reply),), execution),
        call_ensures(
            wrap_llm_exec_intercept_fn,
            (CallStage::<Option<Json>>::Returned(reply),),
            intercept,
        ),
    ensures
        execution is Finish && intercept is Finish,
        execution->release_result == reply.result is Some,
        intercept->release_result == reply.result is Some,
        reply.result is Some ==> {
            &&& execution->result matches Ok(value) && value.deep_view() == reply_json(
                reply.result.deep_view(),
            )
            &&& intercept->result matches Ok(value) && value.deep_view() == reply_json(
                reply.result.deep_view(),
            )
        },
        reply.result is None ==> {
            &&& execution->result matches Err(FlowError::Internal(text)) && text@ == (
            match reply.last_error {
                Some(message) => message@,
                None => "LLM execution callback failed"@,
            })
            &&& intercept->result matches Err(FlowError::Internal(text)) && text@ == (
            match reply.last_error {
                Some(message) => message@,
                None => "LLM execution intercept callback failed"@,
            })
        },
{
}

/// What a streaming LLM execution or an intercept of it returns is the one chunk of the
/// stream, as its text reads; returning nothing fails the call. A returned C string is
/// released.
pub proof fn law_llm_stream_reply_is_one_chunk(
    reply: CallReply,
    execution: CallStep<String, Vec<Json>>,
    intercept: CallStep<String, Vec<Json>>,
)
    requires
        call_ensures(
            wrap_llm_stream_exec_fn,
            (CallStage::<Option<Json>>::Returned(reply),),
            execution,
        ),
        call_ensures(
            wrap_llm_stream_exec_intercept_fn,
            (CallStage::<Option<Json>>::Returned(reply),),
            intercept,
        ),
    ensures
        execution is Finish && intercept is Finish,
        execution->release_result == reply.result is Some,
        intercept->release_result == reply.result is Some,
        reply.result is Some ==> {
            &&& execution->result matches Ok(chunks) && chunks@.len() == 1
                && chunks@[0].deep_view() == reply_json(reply.result.deep_view())
            &&& intercept->result matches Ok(chunks) && chunks@.len() == 1
                && chunks@[0].deep_view() == reply_json(reply.result.deep_view())
        },
        reply.result is None ==> {
            &&& execution->result matches Err(FlowError::Internal(text)) && text@ == (
            match reply.last_error {
                Some(message) => message@,
                None => "LLM stream execution callback failed"@,
            })
            &&& intercept->result matches Err(FlowError::Internal(text)) && text@ == (
            match reply.last_error {
                Some(message) => message@,
                None => "LLM stream execution intercept callback failed"@,
            })
        },
{
    let value = reply_json(reply.result.deep_view());
    if reply.result is Some {
        let chunks = execution->result->Ok_0;
        assert(chunks.deep_view().len() == 1 && chunks.deep_view()[0] == value);
        assert(chunks@.len() == 1 && chunks@[0].deep_view() == value);
        let other = intercept->result->Ok_0;
        assert(other.deep_view().len() == 1 && other.deep_view()[0] == value);
        assert(other@.len() == 1 && other@[0].deep_view() == value);
    }
}

/// An LLM guardrail is called with the request as it is, and rejects with exactly the text
/// it returns. Without one it lets the call through, unless it left an error message,
/// which fails the call.
pub proof fn law_llm_guardrail_rejects_with_its_text<Q>(
    request: Q,
    started: CallStep<Q, Option<String>>,
    reply: CallReply,
    step: CallStep<Q, Option<String>>,
)
    requires
        call_ensures(wrap_llm_conditional_fn::<Q>, (CallStage::Start(request),), started),
        call_ensures(wrap_llm_conditional_fn::<Q>, (CallStage::<Q>::Returned(reply),), step),
    ensures
        started matches CallStep::Call { clear_last_error, args } && clear_last_error && args
            == request,
        step is Finish,
        step->release_result == reply.result is Some,
        reply.result matches Some(bytes) ==> (step->result matches Ok(Some(reason)) && reason@
            == lenient_text(bytes@)),
        reply.result is None && reply.last_error is None ==> (step->result matches Ok(None)),
        reply.result is None ==> (reply.last_error matches Some(message) ==> (step->result matches
            Err(FlowError::Internal(text)) && text@ == message@)),
{
    if let Some(bytes) = reply.result {
        assert(bytes.deep_view() =~= bytes@);
    }
}

/// A collector gets every chunk with its whole text and cannot fail.
pub proof fn law_collector_gets_every_chunk(
    chunk: Json,
    started: CallStep<String, ()>,
    reply: CallReply,
    step: CallStep<String, ()>,
)
    requires
        call_ensures(wrap_collector_fn, (CallStage::Start(chunk),), started),
        call_ensures(wrap_collector_fn, (CallStage::<Json>::Returned(reply),), step),
    ensures
        started matches CallStep::Call { clear_last_error, args } && !clear_last_error && args@
            == c_text(chunk.deep_view().text()),
        step matches CallStep::Finish { result: Ok(_), release_result } && release_result
            == reply.result is Some,
{
}

/// A finalizer's reply is the aggregated response, as its text reads; it cannot fail.
pub proof fn law_finalizer_reply_is_the_response(
    started: CallStep<(), Json>,
    reply: CallReply,
    step: CallStep<(), Json>,
)
    requires
        call_ensures(wrap_finalizer_fn, (CallStage::Start(()),), started),
        call_ensures(wrap_finalizer_fn, (CallStage::<()>::Returned(reply),), step),
    ensures
        started matches CallStep::Call { clear_last_error, .. } && !clear_last_error,
        step matches CallStep::Finish { result: Ok(value), release_result } && value.deep_view()
            == reply_json(reply.result.deep_view()) && release_result == reply.result is Some,
{
}

/// An event sanitizer gets the event as it is and the whole text of its fields. What it
/// returns is decoded, with its whole text as it reads, and what it was decoded as is the
/// result, unchanged.
pub proof fn law_event_sanitizer_reply_is_decoded<E, V>(
    call: EventFields<E>,
    started: DecodedCallStep<EventSanitizeArgs<E>, V>,
    reply: CallReply,
    replied: DecodedCallStep<EventSanitizeArgs<E>, V>,
    decoded: Result<V, String>,
    ended: DecodedCallStep<EventSanitizeArgs<E>, V>,
)
    requires
        call_ensures(
            wrap_event_sanitize_fn::<E, V>,
            (DecodedCallStage::<EventFields<E>, V>::Start(call),),
            started,
        ),
        call_ensures(
            wrap_event_sanitize_fn::<E, V>,
            (DecodedCallStage::<EventFields<E>, V>::Returned(reply),),
            replied,
        ),
        call_ensures(
            wrap_event_sanitize_fn::<E, V>,
            (DecodedCallStage::<EventFields<E>, V>::Decoded(decoded),),
            ended,
        ),
    ensures
        started matches DecodedCallStep::Call { clear_last_error, args } && !clear_last_error
            && args.event == call.event && args.fields_json@ == (match call.fields {
            Some(fields) => c_text(fields.deep_view().text()),
            None => c_text("null"@),
        }),
        replied matches DecodedCallStep::Decode { text, release_result } && text@ == reply_json(
            reply.result.deep_view(),
        ).text() && release_result == reply.result is Some,
        decoded matches Ok(value) ==> (ended matches DecodedCallStep::Finish {
            result: Ok(made),
            release_result,
        } && made == value && !release_result),
        decoded matches Err(error) ==> (ended matches DecodedCallStep::Finish {
            result: Err(FlowError::Internal(text)),
            release_result,
        } && text@ == "invalid event sanitizer result: "@ + error@ && !release_result),
{
}

/// A request intercept gets its name, the request as it is, and the whole annotated text:
/// a null pointer where there is none, and null where it could not be written.
pub proof fn law_request_intercept_gets_the_request<Q, V>(
    name: String,
    request: Q,
    annotated: Option<Option<String>>,
    step: RequestInterceptStep<Q, V>,
)
    requires
        call_ensures(
            wrap_llm_request_intercept_fn::<Q, V>,
            (RequestInterceptStage::<Q, V>::Start { name, request, annotated },),
            step,
        ),
    ensures
        step matches RequestInterceptStep::Call { name: c_name, request: handed, .. } && c_name@
            == c_text(name@) && handed == request,
        annotated is None ==> step->annotated_json is None,
        annotated matches Some(None) ==> (step->annotated_json matches Some(text) && text@
            == c_text("null"@)),
        annotated matches Some(Some(own)) ==> (step->annotated_json matches Some(text) && text@
            == c_text(own@)),
{
}

/// A request intercept that succeeds has exactly the text it wrote decoded. It fails where
/// its status is not success, in the words of the last error message or else its own;
/// where it wrote nothing; and where it wrote what is not UTF-8. Whatever was written is
/// released at that point, and only then.
pub proof fn law_request_intercept_outcome_is_decoded<Q, V>(
    status: NemoRelayStatus,
    outcome: Option<Vec<u8>>,
    last_error: Option<String>,
    step: RequestInterceptStep<Q, V>,
)
    requires
        call_ensures(
            wrap_llm_request_intercept_fn::<Q, V>,
            (RequestInterceptStage::<Q, V>::Returned { status, outcome, last_error },),
            step,
        ),
    ensures
        status != NemoRelayStatus::Success ==> (step matches RequestInterceptStep::Finish {
            result: Err(FlowError::Internal(text)),
            release_outcome,
        } && text@ == (match last_error {
            Some(message) => message@,
            None => "request intercept callback failed"@,
        }) && release_outcome == outcome is Some),
        status == NemoRelayStatus::Success && outcome is None ==> (step matches
            RequestInterceptStep::Finish {
            result: Err(FlowError::Internal(text)),
            release_outcome,
        } && text@ == "request intercept returned null out_outcome_json"@ && !release_outcome),
        status == NemoRelayStatus::Success ==> (outcome matches Some(bytes) ==> {
            &&& valid_utf8(bytes@) ==> (step matches RequestInterceptStep::Decode {
                text,
                release_outcome,
            } && text@ == decode_utf8(bytes@) && release_outcome)
            &&& !valid_utf8(bytes@) ==> (step matches RequestInterceptStep::Finish {
                result: Err(FlowError::Internal(text)),
                release_outcome,
            } && text@ == "invalid outcome UTF-8: "@ + utf8_error(bytes@) && release_outcome)
        }),
{
    if let Some(bytes) = outcome {
        assert(bytes.deep_view() =~= bytes@);
    }
}

/// What the outcome of a request intercept was decoded as is the result, unchanged; what
/// could not be decoded fails the call, and nothing is left to release.
pub proof fn law_request_intercept_ends_with_what_was_decoded<Q, V>(
    decoded: Result<V, String>,
    step: RequestInterceptStep<Q, V>,
)
    requires
        call_ensures(
            wrap_llm_request_intercept_fn::<Q, V>,
            (RequestInterceptStage::<Q, V>::Decoded(decoded),),
            step,
        ),
    ensures
        decoded matches Ok(value) ==> (step matches RequestInterceptStep::Finish {
            result: Ok(made),
            release_outcome,
        } && made == value && !release_outcome),
        decoded matches Err(error) ==> (step matches RequestInterceptStep::Finish {
            result: Err(FlowError::Internal(text)),
            release_outcome,
        } && text@ == "invalid LLM request intercept outcome JSON: "@ + error@
            && !release_outcome),
{
}

} // verus!
