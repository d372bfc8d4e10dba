//! Synchronous C callbacks: what each is called with, and what its reply means.
//!
//! Every `wrap_*` function is one step of a call. From the start of a call it
//! makes the arguments for the callback; from what the callback returned it makes
//! the result, or the text that has to be decoded first.

use vstd::prelude::*;

use crate::error::{
    internal, internal_error, outcome, FlowError, FlowErrorModel, FlowResult,
};
use crate::json::{
    json_parsed, json_to_c_string, parse_json, parse_model, survives, Json, JsonModel,
};
use crate::text::{c_string, c_text, lenient_text, lossy_text};

verus! {

/// What a callback left behind: the C string it returned, `None` for a null
/// pointer, and the last error message of the thread, if one is set.
pub struct CallReply {
    /// The returned C string.
    pub result: Option<Vec<u8>>,
    /// The last error message.
    pub last_error: Option<String>,
}

/// What was parsed, or null where parsing failed.
pub open spec fn parsed_or_null(parsed: Result<JsonModel, Seq<char>>) -> JsonModel {
    match parsed {
        Ok(value) => value,
        Err(_) => JsonModel::Null,
    }
}

/// The JSON in a returned C string: null where there is none, or where it cannot
/// be parsed.
pub open spec fn reply_json(result: Option<Seq<u8>>) -> JsonModel {
    match result {
        Some(bytes) => parsed_or_null(json_parsed(lenient_text(bytes))),
        None => JsonModel::Null,
    }
}

/// The text in a returned C string.
pub open spec fn reply_text(result: Option<Seq<u8>>) -> Option<Seq<char>> {
    match result {
        Some(bytes) => Some(lenient_text(bytes)),
        None => None,
    }
}

/// The error of a callback that returned nothing: the last error message, or
/// else a fallback.
pub open spec fn reply_error(last_error: Option<Seq<char>>, fallback: Seq<char>) -> FlowErrorModel {
    FlowErrorModel::Internal(
        match last_error {
            Some(message) => message,
            None => fallback,
        },
    )
}

/// The result of a callback that must return JSON.
pub open spec fn reply_result(
    result: Option<Seq<u8>>,
    last_error: Option<Seq<char>>,
    fallback: Seq<char>,
) -> Result<JsonModel, FlowErrorModel> {
    if result is None {
        Err(reply_error(last_error, fallback))
    } else {
        Ok(reply_json(result))
    }
}

/// The verdict of a callback that returns a reason to reject, or nothing: without
/// a reason, a last error message fails the call.
pub open spec fn reply_verdict(
    result: Option<Seq<u8>>,
    last_error: Option<Seq<char>>,
) -> Result<Option<Seq<char>>, FlowErrorModel> {
    match result {
        Some(_) => Ok(reply_text(result)),
        None => match last_error {
            Some(message) => Err(FlowErrorModel::Internal(message)),
            None => Ok(None),
        },
    }
}

/// The value that was parsed; null where parsing failed.
pub fn json_or_null(parsed: Result<Json, String>) -> (value: Json)
    ensures
        value.deep_view() == parsed_or_null(parse_model(parsed)),
{
    match parsed {
        Ok(value) => value,
        Err(_) => Json::Null,
    }
}

/// Reads a returned C string as JSON, leniently. What it holds can be handed on as a C
/// string and read again.
pub fn ptr_to_json(result: &Option<Vec<u8>>) -> (value: Json)
    ensures
        value.deep_view() == reply_json(result.deep_view()),
        value.deep_view().well_formed(),
        value is Null || survives(value.deep_view()),
{
    match result {
        Some(bytes) => {
            assert(bytes.deep_view() =~= bytes@);
            json_or_null(parse_json(lossy_text(bytes.as_slice()).as_str()))
        },
        None => Json::Null,
    }
}

/// The last error message, or else the fallback, as an error.
pub(crate) fn last_error_or(last_error: &Option<String>, fallback: &str) -> (error: FlowError)
    ensures
        error.deep_view() == reply_error(last_error.deep_view(), fallback@),
{
    match last_error {
        Some(message) => FlowError::Internal(message.clone()),
        None => FlowError::Internal(fallback.to_owned()),
    }
}

/// Reads a returned C string as JSON, where returning nothing is an error.
pub fn json_result_from_ptr(
    result: &Option<Vec<u8>>,
    last_error: &Option<String>,
    fallback: &str,
) -> (value: FlowResult<Json>)
    ensures
        outcome(value) == reply_result(result.deep_view(), last_error.deep_view(), fallback@),
        value matches Ok(json) ==> json.deep_view().well_formed(),
        value matches Ok(json) ==> json is Null || survives(json.deep_view()),
{
    if result.is_none() {
        return Err(last_error_or(last_error, fallback));
    }
    Ok(ptr_to_json(result))
}

/// Reads a returned C string as text.
pub fn ptr_to_opt_string(result: &Option<Vec<u8>>) -> (text: Option<String>)
    ensures
        text.deep_view() == reply_text(result.deep_view()),
{
    match result {
        Some(bytes) => {
            assert(bytes.deep_view() =~= bytes@);
            Some(lossy_text(bytes.as_slice()))
        },
        None => None,
    }
}

/// Reads a reply as a verdict.
pub(crate) fn verdict(reply: &CallReply) -> (verdict: FlowResult<Option<String>>)
    ensures
        outcome(verdict) == reply_verdict(reply.result.deep_view(), reply.last_error.deep_view()),
{
    match &reply.result {
        Some(_) => Ok(ptr_to_opt_string(&reply.result)),
        None => match &reply.last_error {
            Some(message) => Err(FlowError::Internal(message.clone())),
            None => Ok(None),
        },
    }
}

/// How far a call has come.
pub enum CallStage<I> {
    /// What the caller passed in.
    Start(I),
    /// What the callback left behind.
    Returned(CallReply),
}

/// How a call goes on. A C string that the callback returned belongs to the relay;
/// where `release_result` is set, it has to be released now.
pub enum CallStep<A, V> {
    /// Call the callback.
    Call {
        /// Whether the last error message is cleared first.
        clear_last_error: bool,
        /// The arguments.
        args: A,
    },
    /// The call is over.
    Finish {
        /// Its result.
        result: FlowResult<V>,
        /// Whether the returned C string is released now.
        release_result: bool,
    },
}

/// How far a call has come whose result is decoded into a type of the caller.
pub enum DecodedCallStage<I, V> {
    /// What the caller passed in.
    Start(I),
    /// What the callback left behind.
    Returned(CallReply),
    /// The decoded result, or why it could not be decoded.
    Decoded(Result<V, String>),
}

/// How such a call goes on. A C string that the callback returned belongs to the
/// relay; where `release_result` is set, it has to be released now.
pub enum DecodedCallStep<A, V> {
    /// Call the callback.
    Call {
        /// Whether the last error message is cleared first.
        clear_last_error: bool,
        /// The arguments.
        args: A,
    },
    /// Decode a JSON text.
    Decode {
        /// The text.
        text: String,
        /// Whether the returned C string is released now.
        release_result: bool,
    },
    /// The call is over.
    Finish {
        /// Its result.
        result: FlowResult<V>,
        /// Whether the returned C string is released now.
        release_result: bool,
    },
}

/// A tool call: the tool and its arguments.
pub struct ToolCall {
    /// The tool's name.
    pub name: String,
    /// Its arguments.
    pub args: Json,
}

/// The contents of two C strings: a name and JSON text.
pub struct NamedJson {
    /// The name.
    pub name: String,
    /// The JSON text.
    pub json: String,
}

impl NamedJson {
    /// Whether these are the C strings of the given call.
    pub open spec fn carries(self, call: ToolCall) -> bool {
        &&& self.name@ == c_text(call.name@)
        &&& self.json@ == c_text(call.args.deep_view().text())
    }
}

fn named_json(call: &ToolCall) -> (args: NamedJson)
    ensures
        args.carries(*call),
{
    NamedJson { name: c_string(call.name.as_str()), json: json_to_c_string(&call.args) }
}

/// Whether `step` calls the callback with arguments that satisfy `args`.
pub open spec fn calls<A, V>(
    step: CallStep<A, V>,
    clear: bool,
    args: spec_fn(A) -> bool,
) -> bool {
    step matches CallStep::Call { clear_last_error, args: made } && clear_last_error == clear
        && args(made)
}

/// Whether `step` ends the call with the given result once the callback has replied.
/// A C string that it returned is then released, and only then.
pub open spec fn finishes<A, V: DeepView>(
    step: CallStep<A, V>,
    reply: CallReply,
    result: Result<V::V, FlowErrorModel>,
) -> bool {
    step matches CallStep::Finish { result: made, release_result } && outcome(made) == result
        && release_result == reply.result is Some
}

/// Ends a call once the callback has replied.
pub(crate) fn finish<A, V>(reply: &CallReply, result: FlowResult<V>) -> (step: CallStep<A, V>)
    ensures
        step == (CallStep::<A, V>::Finish { result, release_result: reply.result is Some }),
{
    CallStep::Finish { result, release_result: reply.result.is_some() }
}

/// Whether `step` has a text decoded once the callback has replied, or ends the call
/// with an error. A C string that it returned is then released, and only then.
pub open spec fn decodes_reply<A, V>(
    step: DecodedCallStep<A, V>,
    reply: CallReply,
    text: Result<Seq<char>, FlowErrorModel>,
) -> bool {
    match text {
        Ok(expected) => step matches DecodedCallStep::Decode { text: made, release_result } && made@
            == expected && release_result == reply.result is Some,
        Err(error) => step matches DecodedCallStep::Finish { result: Err(failure), release_result }
            && failure.deep_view() == error && release_result == reply.result is Some,
    }
}

/// Has a text decoded once the callback has replied, or ends the call.
pub(crate) fn decode_reply<A, V>(reply: &CallReply, text: FlowResult<String>) -> (step:
    DecodedCallStep<A, V>)
    ensures
        decodes_reply(step, *reply, outcome(text)),
{
    let release_result = reply.result.is_some();
    match text {
        Ok(text) => DecodedCallStep::Decode { text, release_result },
        Err(error) => DecodedCallStep::Finish { result: Err(error), release_result },
    }
}

/// Whether `step` ends the call with the decoded value, or with the reason why it
/// could not be decoded behind the given prefix. Nothing is left to release.
pub open spec fn ends_decoded_call<A, V>(
    step: DecodedCallStep<A, V>,
    decoded: Result<V, String>,
    prefix: Seq<char>,
) -> bool {
    match decoded {
        Ok(value) => step == (DecodedCallStep::<A, V>::Finish {
            result: Ok(value),
            release_result: false,
        }),
        Err(error) => step matches DecodedCallStep::Finish { result: Err(failure), release_result }
            && failure.deep_view() == internal(prefix, error@) && !release_result,
    }
}

/// Ends a call whose result has been decoded.
pub(crate) fn end_decoded_call<A, V>(decoded: Result<V, String>, prefix: &str) -> (step:
    DecodedCallStep<A, V>)
    ensures
        ends_decoded_call(step, decoded, prefix@),
{
    DecodedCallStep::Finish {
        result: match decoded {
            Ok(value) => Ok(value),
            Err(error) => Err(internal_error(prefix, error.as_str())),
        },
        release_result: false,
    }
}

/// A tool sanitizer: whatever the callback returns replaces the arguments, with
/// null in place of what is not JSON.
pub fn wrap_tool_sanitize_fn(stage: CallStage<ToolCall>) -> (step: CallStep<NamedJson, Json>)
    ensures
        match stage {
            CallStage::Start(call) => calls(step, false, |args: NamedJson| args.carries(call)),
            CallStage::Returned(reply) => finishes(
                step,
                reply,
                Ok(reply_json(reply.result.deep_view())),
            ),
        },
{
    match stage {
        CallStage::Start(call) => CallStep::Call {
            clear_last_error: false,
            args: named_json(&call),
        },
        CallStage::Returned(reply) => finish(&reply, Ok(ptr_to_json(&reply.result))),
    }
}

/// A conditional tool guardrail: a returned text is the reason to reject.
pub fn wrap_tool_conditional_fn(stage: CallStage<ToolCall>) -> (step: CallStep<
    NamedJson,
    Option<String>,
>)
    ensures
        match stage {
            CallStage::Start(call) => calls(step, true, |args: NamedJson| args.carries(call)),
            CallStage::Returned(reply) => finishes(
                step,
                reply,
                reply_verdict(reply.result.deep_view(), reply.last_error.deep_view()),
            ),
        },
{
    match stage {
        CallStage::Start(call) => CallStep::Call {
            clear_last_error: true,
            args: named_json(&call),
        },
        CallStage::Returned(reply) => finish(&reply, verdict(&reply)),
    }
}

/// A tool request intercept: the callback returns the arguments to go on with.
pub fn wrap_tool_request_intercept_fn(stage: CallStage<ToolCall>) -> (step: CallStep<
    NamedJson,
    Json,
>)
    ensures
        match stage {
            CallStage::Start(call) => calls(step, true, |args: NamedJson| args.carries(call)),
            CallStage::Returned(reply) => finishes(
                step,
                reply,
                reply_result(
                    reply.result.deep_view(),
                    reply.last_error.deep_view(),
                    "tool request intercept callback returned null"@,
                ),
            ),
        },
{
    match stage {
        CallStage::Start(call) => CallStep::Call {
            clear_last_error: true,
            args: named_json(&call),
        },
        CallStage::Returned(reply) => finish(
            &reply,
            json_result_from_ptr(
                &reply.result,
                &reply.last_error,
                "tool request intercept callback returned null",
            ),
        ),
    }
}

/// A tool execution: the callback gets the arguments and returns the result.
pub fn wrap_tool_exec_fn(stage: CallStage<Json>) -> (step: CallStep<String, Json>)
    ensures
        match stage {
            CallStage::Start(value) => calls(
                step,
                false,
                |args: String| args@ == c_text(value.deep_view().text()),
            ),
            CallStage::Returned(reply) => finishes(
                step,
                reply,
                reply_result(
                    reply.result.deep_view(),
                    reply.last_error.deep_view(),
                    "tool execution callback failed"@,
                ),
            ),
        },
{
    match stage {
        CallStage::Start(value) => CallStep::Call {
            clear_last_error: false,
            args: json_to_c_string(&value),
        },
        CallStage::Returned(reply) => finish(
            &reply,
            json_result_from_ptr(
                &reply.result,
                &reply.last_error,
                "tool execution callback failed",
            ),
        ),
    }
}

/// A tool execution intercept: the callback gets the arguments, may call the next
/// layer, and returns an outcome that is decoded afterwards.
pub fn wrap_tool_exec_intercept_fn<V>(stage: DecodedCallStage<Json, V>) -> (step: DecodedCallStep<
    String,
    V,
>)
    ensures
        match stage {
            DecodedCallStage::Start(value) => step matches DecodedCallStep::Call {
                clear_last_error,
                args,
            } && !clear_last_error && args@ == c_text(value.deep_view().text()),
            DecodedCallStage::Returned(reply) => decodes_reply(
                step,
                reply,
                match reply_result(
                    reply.result.deep_view(),
                    reply.last_error.deep_view(),
                    "tool execution intercept callback failed"@,
                ) {
                    Ok(value) => Ok(value.text()),
                    Err(error) => Err(error),
                },
            ),
            DecodedCallStage::Decoded(decoded) => ends_decoded_call(
                step,
                decoded,
                "invalid tool execution intercept outcome JSON: "@,
            ),
        },
{
    match stage {
        DecodedCallStage::Start(value) => DecodedCallStep::Call {
            clear_last_error: false,
            args: json_to_c_string(&value),
        },
        DecodedCallStage::Returned(reply) => {
            let text = match json_result_from_ptr(
                &reply.result,
                &reply.last_error,
                "tool execution intercept callback failed",
            ) {
                Ok(value) => Ok(value.to_text()),
                Err(error) => Err(error),
            };
            decode_reply(&reply, text)
        },
        DecodedCallStage::Decoded(decoded) => end_decoded_call(
            decoded,
            "invalid tool execution intercept outcome JSON: ",
        ),
    }
}

/// Whether `step` has the returned C string released.
pub open spec fn releases<A, V>(step: DecodedCallStep<A, V>) -> bool {
    match step {
        DecodedCallStep::Call { .. } => false,
        DecodedCallStep::Decode { release_result, .. } => release_result,
        DecodedCallStep::Finish { release_result, .. } => release_result,
    }
}

/// Over a whole call, a C string that the callback returned is released exactly once,
/// as soon as it has been read and whatever comes of decoding it; a null pointer never.
pub proof fn law_returned_string_is_released_once<A, V>(
    reply: CallReply,
    text: Result<Seq<char>, FlowErrorModel>,
    replied: DecodedCallStep<A, V>,
    decoded: Result<V, String>,
    prefix: Seq<char>,
    ended: DecodedCallStep<A, V>,
)
    requires
        decodes_reply(replied, reply, text),
        ends_decoded_call(ended, decoded, prefix),
    ensures
        releases(replied) <==> reply.result is Some,
        !releases(ended),
{
}

/// A returned C string is the JSON that its text reads as. Only a null pointer, or a text
/// that is not JSON, stands for null.
pub proof fn law_reply_is_what_its_text_reads_as(result: Option<Vec<u8>>, value: Json)
    requires
        call_ensures(ptr_to_json, (&result,), value),
    ensures
        result is None ==> value is Null,
        result matches Some(bytes) ==> {
            &&& json_parsed(lenient_text(bytes@)) matches Ok(read) ==> value.deep_view() == read
            &&& json_parsed(lenient_text(bytes@)) is Err ==> value is Null
        },
        value.deep_view() == reply_json(result.deep_view()),
{
    if let Some(bytes) = result {
        assert(bytes.deep_view() =~= bytes@);
    }
}

/// What was parsed is kept as it is; only a failure to parse stands for null.
pub proof fn law_parsed_reply_is_kept(parsed: Result<Json, String>, value: Json)
    requires
        call_ensures(json_or_null, (parsed,), value),
    ensures
        parsed matches Ok(read) ==> value.deep_view() == read.deep_view(),
        parsed is Err ==> value is Null,
{
}

/// A returned C string is the text in its bytes, whole; a null pointer is no text.
pub proof fn law_reply_text_is_the_whole_text(result: Option<Vec<u8>>, text: Option<String>)
    requires
        call_ensures(ptr_to_opt_string, (&result,), text),
    ensures
        text is Some <==> result is Some,
        result matches Some(bytes) ==> text->0@ == lenient_text(bytes@),
        text.deep_view() == reply_text(result.deep_view()),
{
    if let Some(bytes) = result {
        assert(bytes.deep_view() =~= bytes@);
    }
}

/// Where a callback must return JSON, a null pointer fails the call with the last error
/// message, or else the fallback; and whatever is returned makes it succeed with what the
/// text reads as, whichever message is set.
pub proof fn law_missing_reply_fails_the_call(
    result: Option<Vec<u8>>,
    last_error: Option<String>,
    fallback: &str,
    value: FlowResult<Json>,
)
    requires
        call_ensures(json_result_from_ptr, (&result, &last_error, fallback), value),
    ensures
        value is Ok <==> result is Some,
        value matches Ok(read) ==> read.deep_view() == reply_json(result.deep_view()),
        value matches Err(error) ==> {
            &&& error matches FlowError::Internal(text)
            &&& last_error matches Some(message) ==> text@ == message@
            &&& last_error is None ==> text@ == fallback@
        },
        outcome(value) == reply_result(result.deep_view(), last_error.deep_view(), fallback@),
{
}

/// What a reply says where it may be missing, over its bytes and the last error message.
pub proof fn law_reply_is_json_or_an_error(
    bytes: Seq<u8>,
    last_error: Option<Seq<char>>,
    fallback: Seq<char>,
)
    ensures
        reply_json(None) is Null,
        json_parsed(lenient_text(bytes)) matches Ok(read) ==> reply_json(Some(bytes)) == read,
        json_parsed(lenient_text(bytes)) is Err ==> reply_json(Some(bytes)) is Null,
        reply_text(None) is None,
        reply_text(Some(bytes)) == Some(lenient_text(bytes)),
        reply_result(Some(bytes), last_error, fallback) == Ok::<JsonModel, FlowErrorModel>(
            reply_json(Some(bytes)),
        ),
        reply_result(None, last_error, fallback) == Err::<JsonModel, FlowErrorModel>(
            reply_error(last_error, fallback),
        ),
        reply_error(None, fallback) == FlowErrorModel::Internal(fallback),
        last_error matches Some(message) ==> reply_error(last_error, fallback)
            == FlowErrorModel::Internal(message),
        reply_verdict(Some(bytes), last_error) == Ok::<Option<Seq<char>>, FlowErrorModel>(
            Some(lenient_text(bytes)),
        ),
        reply_verdict(None, None) == Ok::<Option<Seq<char>>, FlowErrorModel>(None),
        last_error matches Some(message) ==> reply_verdict(None, last_error) == Err::<
            Option<Seq<char>>,
            FlowErrorModel,
        >(FlowErrorModel::Internal(message)),
{
}

/// A tool callback is called once per call, with the whole name and the whole text of the
/// arguments. Guardrails and request intercepts start without an old error message.
pub proof fn law_tool_callback_gets_name_and_arguments(
    call: ToolCall,
    sanitize: CallStep<NamedJson, Json>,
    conditional: CallStep<NamedJson, Option<String>>,
    intercept: CallStep<NamedJson, Json>,
)
    requires
        call_ensures(wrap_tool_sanitize_fn, (CallStage::Start(call),), sanitize),
        call_ensures(wrap_tool_conditional_fn, (CallStage::Start(call),), conditional),
        call_ensures(wrap_tool_request_intercept_fn, (CallStage::Start(call),), intercept),
    ensures
        sanitize matches CallStep::Call { clear_last_error, args } && !clear_last_error
            && args.name@ == c_text(call.name@) && args.json@ == c_text(
            call.args.deep_view().text(),
        ),
        conditional matches CallStep::Call { clear_last_error, args } && clear_last_error
            && args.name@ == c_text(call.name@) && args.json@ == c_text(
            call.args.deep_view().text(),
        ),
        intercept matches CallStep::Call { clear_last_error, args } && clear_last_error
            && args.name@ == c_text(call.name@) && args.json@ == c_text(
            call.args.deep_view().text(),
        ),
{
}

/// A tool execution, and an intercept of it, is called with the whole text of the
/// arguments.
pub proof fn law_tool_execution_gets_the_arguments<V>(
    value: Json,
    execution: CallStep<String, Json>,
    intercept: DecodedCallStep<String, V>,
)
    requires
        call_ensures(wrap_tool_exec_fn, (CallStage::Start(value),), execution),
        call_ensures(
            wrap_tool_exec_intercept_fn::<V>,
            (DecodedCallStage::<Json, V>::Start(value),),
            intercept,
        ),
    ensures
        execution matches CallStep::Call { clear_last_error, args } && !clear_last_error && args@
            == c_text(value.deep_view().text()),
        intercept matches DecodedCallStep::Call { clear_last_error, args } && !clear_last_error
            && args@ == c_text(value.deep_view().text()),
{
}

/// A tool sanitizer never fails: what it returns replaces the arguments, whatever they
/// were, and a returned C string is released.
pub proof fn law_tool_sanitizer_replaces_the_arguments(
    reply: CallReply,
    step: CallStep<NamedJson, Json>,
)
    requires
        call_ensures(wrap_tool_sanitize_fn, (CallStage::<ToolCall>::Returned(reply),), step),
    ensures
        step matches CallStep::Finish { result: Ok(value), release_result } && value.deep_view()
            == reply_json(reply.result.deep_view()) && release_result == reply.result is Some,
{
}

/// A tool guardrail rejects with exactly the text it returns. Without one it lets the
/// call through, unless it left an error message, which fails the call.
pub proof fn law_tool_guardrail_rejects_with_its_text(
    reply: CallReply,
    step: CallStep<NamedJson, Option<String>>,
)
    requires
        call_ensures(wrap_tool_conditional_fn, (CallStage::<ToolCall>::Returned(reply),), step),
    ensures
        step is Finish,
        step->release_result == reply.result is Some,
        reply.result matches Some(bytes) ==> (step->result matches Ok(Some(reason)) && reason@
            == lenient_text(bytes@)),
        reply.result is None && reply.last_error is None ==> (step->result matches Ok(None)),
        reply.result is None ==> (reply.last_error matches Some(message) ==> (step->result matches
            Err(FlowError::Internal(text)) && text@ == message@)),
{
    if let Some(bytes) = reply.result {
        assert(bytes.deep_view() =~= bytes@);
    }
}

/// What a tool request intercept or a tool execution returns is the result, as its text
/// reads; returning nothing fails the call, in the words of the last error message or
/// else in words of its own. A returned C string is released.
pub proof fn law_tool_reply_is_the_result(
    reply: CallReply,
    intercept: CallStep<NamedJson, Json>,
    execution: CallStep<String, Json>,
)
    requires
        call_ensures(
            wrap_tool_request_intercept_fn,
            (CallStage::<ToolCall>::Returned(reply),),
            intercept,
        ),
        call_ensures(wrap_tool_exec_fn, (CallStage::<Json>::Returned(reply),), execution),
    ensures
        intercept is Finish && execution is Finish,
        intercept->release_result == reply.result is Some,
        execution->release_result == reply.result is Some,
        reply.result is Some ==> {
            &&& intercept->result matches Ok(value) && value.deep_view() == reply_json(
                reply.result.deep_view(),
            )
            &&& execution->result matches Ok(value) && value.deep_view() == reply_json(
                reply.result.deep_view(),
            )
        },
        reply.result is None ==> {
            &&& intercept->result matches Err(FlowError::Internal(text)) && text@ == (
            match reply.last_error {
                Some(message) => message@,
                None => "tool request intercept callback returned null"@,
            })
            &&& execution->result matches Err(FlowError::Internal(text)) && text@ == (
            match reply.last_error {
                Some(message) => message@,
                None => "tool execution callback failed"@,
            })
        },
{
}

/// What a tool execution intercept returns is decoded, with its whole text as it reads;
/// what it was decoded as is the result, unchanged. Returning nothing, or what cannot be
/// decoded, fails the call, and says why.
pub proof fn law_tool_intercept_reply_is_decoded<V>(
    reply: CallReply,
    replied: DecodedCallStep<String, V>,
    decoded: Result<V, String>,
    ended: DecodedCallStep<String, V>,
)
    requires
        call_ensures(
            wrap_tool_exec_intercept_fn::<V>,
            (DecodedCallStage::<Json, V>::Returned(reply),),
            replied,
        ),
        call_ensures(
            wrap_tool_exec_intercept_fn::<V>,
            (DecodedCallStage::<Json, V>::Decoded(decoded),),
            ended,
        ),
    ensures
        reply.result is Some ==> (replied matches DecodedCallStep::Decode { text, release_result }
            && text@ == reply_json(reply.result.deep_view()).text() && release_result),
        reply.result is None ==> (replied matches DecodedCallStep::Finish {
            result: Err(FlowError::Internal(text)),
            release_result,
        } && text@ == (match reply.last_error {
            Some(message) => message@,
            None => "tool execution intercept callback failed"@,
        }) && !release_result),
        decoded matches Ok(value) ==> (ended matches DecodedCallStep::Finish {
            result: Ok(made),
            release_result,
        } && made == value && !release_result),
        decoded matches Err(error) ==> (ended matches DecodedCallStep::Finish {
            result: Err(FlowError::Internal(text)),
            release_result,
        } && text@ == "invalid tool execution intercept outcome JSON: "@ + error@
            && !release_result),
{
}

} // verus!
