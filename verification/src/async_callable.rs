//! Completion-based C callbacks: the envelope each is invoked with, and what the
//! value it settles with means.

use vstd::prelude::*;

use crate::callable::ToolCall;
use crate::codec::{codec_identity, ffi_codec_identity_json, identity_json, LlmCodecIdentity};
use crate::completion::{
    invoke_async_intercept, nemo_relay_async_completion_resolve_json, InterceptEvent,
    InterceptStep, NemoRelayAsyncCompletion, SettleReport,
};
use crate::error::{
    internal, internal_error, joined_text, outcome, FlowError, FlowErrorModel, FlowResult,
};
use crate::json::{
    c_json, comma_joined, json_quoted, member_text, object, object_text, Json, JsonModel, Member,
};
use crate::llm::request_text;
use crate::next::{replay_chunks, replayed};

verus! {

/// How far a completion-based call has come.
pub enum AsyncStage<I> {
    /// What the caller passed in.
    Start(I),
    /// What the invocation ended with.
    Settled(FlowResult<Json>),
}

/// How a completion-based call goes on.
pub enum AsyncStep<V> {
    /// Invoke the callback with this envelope.
    Invoke(Json),
    /// The call is over.
    Finish(FlowResult<V>),
}

/// How far a completion-based call has come whose value is decoded into a type of
/// the caller.
pub enum AsyncDecodedStage<I, V> {
    /// What the caller passed in.
    Start(I),
    /// What the invocation ended with.
    Settled(FlowResult<Json>),
    /// The decoded value, or why it could not be decoded.
    Decoded(Result<V, String>),
}

/// How such a call goes on.
pub enum AsyncDecodedStep<T> {
    /// Invoke the callback with this envelope.
    Invoke(Json),
    /// Decode this value.
    Decode(Json),
    /// The call is over.
    Finish(FlowResult<T>),
}

/// Whether `step` invokes the callback with the given envelope.
pub open spec fn invokes<V>(step: AsyncStep<V>, envelope: JsonModel) -> bool {
    step matches AsyncStep::Invoke(made) && made.deep_view() == envelope
}

/// Whether `step` ends the call with the given result.
pub open spec fn settles<V: DeepView>(
    step: AsyncStep<V>,
    result: Result<V::V, FlowErrorModel>,
) -> bool {
    step matches AsyncStep::Finish(made) && outcome(made) == result
}

/// Whether `step` invokes the callback with the given envelope.
pub open spec fn invokes_decoded<T>(step: AsyncDecodedStep<T>, envelope: JsonModel) -> bool {
    step matches AsyncDecodedStep::Invoke(made) && made.deep_view() == envelope
}

/// Whether `step` has the settled value decoded, or ends the call with the error.
pub open spec fn decodes<T>(
    step: AsyncDecodedStep<T>,
    settled: Result<JsonModel, FlowErrorModel>,
) -> bool {
    match settled {
        Ok(value) => step matches AsyncDecodedStep::Decode(made) && made.deep_view() == value,
        Err(error) => step matches AsyncDecodedStep::Finish(Err(failure)) && failure.deep_view()
            == error,
    }
}

/// Whether `step` ends the call with the decoded value, or with the reason why it
/// could not be decoded behind the given prefix.
pub open spec fn ends_decoded<V>(
    step: AsyncDecodedStep<V>,
    decoded: Result<V, String>,
    prefix: Seq<char>,
) -> bool {
    match decoded {
        Ok(value) => step == AsyncDecodedStep::<V>::Finish(Ok(value)),
        Err(error) => step matches AsyncDecodedStep::Finish(Err(failure)) && failure.deep_view()
            == internal(prefix, error@),
    }
}

fn decode<T>(settled: FlowResult<Json>) -> (step: AsyncDecodedStep<T>)
    ensures
        decodes(step, outcome(settled)),
        settled matches Ok(value) ==> step == AsyncDecodedStep::<T>::Decode(value),
        settled matches Err(error) ==> step == AsyncDecodedStep::<T>::Finish(Err(error)),
{
    match settled {
        Ok(value) => AsyncDecodedStep::Decode(value),
        Err(error) => AsyncDecodedStep::Finish(Err(error)),
    }
}

fn end_decoded<V>(decoded: Result<V, String>, prefix: &str) -> (step: AsyncDecodedStep<V>)
    ensures
        ends_decoded(step, decoded, prefix@),
{
    match decoded {
        Ok(value) => AsyncDecodedStep::Finish(Ok(value)),
        Err(error) => AsyncDecodedStep::Finish(Err(internal_error(prefix, error.as_str()))),
    }
}

/// The object with one member.
pub open spec fn object_of_one(key: Seq<char>, value: JsonModel) -> JsonModel {
    JsonModel::Other(object_text(seq![member_text(key, value.text())]))
}

/// The object with two members, in this order.
pub open spec fn object_of_two(
    key: Seq<char>,
    value: JsonModel,
    other_key: Seq<char>,
    other: JsonModel,
) -> JsonModel {
    JsonModel::Other(
        object_text(
            seq![member_text(key, value.text()), member_text(other_key, other.text())],
        ),
    )
}

fn two_members(key: &'static str, value: &Json, other_key: &'static str, other: &Json) -> (json:
    Json)
    ensures
        json.deep_view() == object_of_two(key@, value.deep_view(), other_key@, other.deep_view()),
{
    let members = vec![
        Member { key, value: value.to_text() },
        Member { key: other_key, value: other.to_text() },
    ];
    assert(members@.map_values(|member: Member| member_text(member.key@, member.value@)) =~= seq![
        member_text(key@, value.deep_view().text()),
        member_text(other_key@, other.deep_view().text()),
    ]);
    object(&members)
}

/// The envelope of a tool callback.
pub open spec fn tool_envelope(call: ToolCall) -> JsonModel {
    object_of_two(
        "name"@,
        JsonModel::String(call.name@),
        "value"@,
        call.args.deep_view(),
    )
}

fn envelop_tool(call: ToolCall) -> (envelope: Json)
    ensures
        envelope.deep_view() == tool_envelope(call),
{
    two_members("name", &Json::String(call.name), "value", &call.args)
}

/// An LLM call by the name of its intercept.
pub struct NamedRequest {
    /// The name.
    pub name: String,
    /// The request as JSON.
    pub request: Json,
}

/// The envelope of an LLM execution intercept.
pub open spec fn request_envelope(call: NamedRequest) -> JsonModel {
    object_of_two(
        "name"@,
        JsonModel::String(call.name@),
        "request"@,
        call.request.deep_view(),
    )
}

fn envelop_request(call: NamedRequest) -> (envelope: Json)
    ensures
        envelope.deep_view() == request_envelope(call),
{
    two_members("name", &Json::String(call.name), "request", &call.request)
}

/// The verdict in a settled value: null allows, a string is the reason to reject,
/// and anything else is an error that quotes it.
pub open spec fn async_verdict(settled: Result<JsonModel, FlowErrorModel>) -> Result<
    Option<Seq<char>>,
    FlowErrorModel,
> {
    match settled {
        Ok(JsonModel::Null) => Ok(None),
        Ok(JsonModel::String(reason)) => Ok(Some(reason)),
        Ok(other) => Err(
            FlowErrorModel::Internal(
                "async conditional callback returned "@ + other.text()
                    + "; expected string or null"@,
            ),
        ),
        Err(error) => Err(error),
    }
}

fn verdict(settled: FlowResult<Json>) -> (verdict: FlowResult<Option<String>>)
    ensures
        outcome(verdict) == async_verdict(outcome(settled)),
        settled matches Err(error) ==> verdict == FlowResult::<Option<String>>::Err(error),
{
    match settled {
        Ok(Json::Null) => Ok(None),
        Ok(Json::String(reason)) => Ok(Some(reason)),
        Ok(other) => {
            let quote = joined_text(
                "async conditional callback returned ",
                other.to_text().as_str(),
            );
            Err(
                FlowError::Internal(
                    joined_text(quote.as_str(), "; expected string or null"),
                ),
            )
        },
        Err(error) => Err(error),
    }
}

/// A completion-based tool sanitizer or request intercept: the settled value is the
/// result.
pub fn wrap_async_tool_json_fn(stage: AsyncStage<ToolCall>) -> (step: AsyncStep<Json>)
    ensures
        match stage {
            AsyncStage::Start(call) => invokes(step, tool_envelope(call)),
            AsyncStage::Settled(settled) => settles(step, outcome(settled)) && step
                == AsyncStep::<Json>::Finish(settled),
        },
{
    match stage {
        AsyncStage::Start(call) => AsyncStep::Invoke(envelop_tool(call)),
        AsyncStage::Settled(settled) => AsyncStep::Finish(settled),
    }
}

/// A completion-based conditional tool guardrail.
pub fn wrap_async_tool_conditional_fn(stage: AsyncStage<ToolCall>) -> (step: AsyncStep<
    Option<String>,
>)
    ensures
        match stage {
            AsyncStage::Start(call) => invokes(step, tool_envelope(call)),
            AsyncStage::Settled(settled) => settles(step, async_verdict(outcome(settled))) && (
            settled matches Err(error) ==> step == AsyncStep::<Option<String>>::Finish(Err(error))),
        },
{
    match stage {
        AsyncStage::Start(call) => AsyncStep::Invoke(envelop_tool(call)),
        AsyncStage::Settled(settled) => AsyncStep::Finish(verdict(settled)),
    }
}

/// A completion-based conditional LLM guardrail, started with the request as JSON.
pub fn wrap_async_llm_conditional_fn(stage: AsyncStage<Json>) -> (step: AsyncStep<Option<String>>)
    ensures
        match stage {
            AsyncStage::Start(request) => invokes(
                step,
                object_of_one("request"@, request.deep_view()),
            ),
            AsyncStage::Settled(settled) => settles(step, async_verdict(outcome(settled))) && (
            settled matches Err(error) ==> step == AsyncStep::<Option<String>>::Finish(Err(error))),
        },
{
    match stage {
        AsyncStage::Start(request) => {
            let members = vec![Member { key: "request", value: request.to_text() }];
            assert(members@.map_values(
                |member: Member| member_text(member.key@, member.value@),
            ) =~= seq![member_text("request"@, request.deep_view().text())]);
            AsyncStep::Invoke(object(&members))
        },
        AsyncStage::Settled(settled) => AsyncStep::Finish(verdict(settled)),
    }
}

/// An event and its fields, both as JSON.
pub struct EventCall {
    /// The event.
    pub event: Json,
    /// The fields that can be sanitized.
    pub fields: Json,
}

/// A completion-based event sanitizer: the settled value is decoded as the fields to
/// publish.
pub fn wrap_async_event_sanitize_fn<V>(stage: AsyncDecodedStage<EventCall, V>) -> (step:
    AsyncDecodedStep<V>)
    ensures
        match stage {
            AsyncDecodedStage::Start(call) => invokes_decoded(
                step,
                object_of_two(
                    "event"@,
                    call.event.deep_view(),
                    "fields"@,
                    call.fields.deep_view(),
                ),
            ),
            AsyncDecodedStage::Settled(settled) => decodes(step, outcome(settled))
                && match settled {
                Ok(value) => step == AsyncDecodedStep::<V>::Decode(value),
                Err(error) => step == AsyncDecodedStep::<V>::Finish(Err(error)),
            },
            AsyncDecodedStage::Decoded(decoded) => ends_decoded(
                step,
                decoded,
                "invalid event fields: "@,
            ),
        },
{
    match stage {
        AsyncDecodedStage::Start(call) => AsyncDecodedStep::Invoke(
            two_members("event", &call.event, "fields", &call.fields),
        ),
        AsyncDecodedStage::Settled(settled) => decode(settled),
        AsyncDecodedStage::Decoded(decoded) => end_decoded(decoded, "invalid event fields: "),
    }
}

/// Something to sanitize, as JSON, and the codec that is active.
pub struct SanitizeCall {
    /// The active codec.
    pub identity: LlmCodecIdentity,
    /// The request or the response.
    pub payload: Json,
}

/// The envelope of an LLM sanitizer, with the payload under `key`; an identity that
/// cannot cross the C boundary fails the call before the callback is invoked.
pub open spec fn sanitize_envelope(call: SanitizeCall, key: Seq<char>) -> Result<
    JsonModel,
    FlowErrorModel,
> {
    match codec_identity(call.identity) {
        Ok(crossed) => Ok(
            object_of_two("context"@, identity_json(crossed), key, call.payload.deep_view()),
        ),
        Err(error) => Err(error),
    }
}

fn envelop_sanitize(call: &SanitizeCall, key: &'static str) -> (envelope: FlowResult<Json>)
    ensures
        outcome(envelope) == sanitize_envelope(*call, key@),
{
    match ffi_codec_identity_json(&call.identity) {
        Ok(context) => Ok(two_members("context", &context, key, &call.payload)),
        Err(error) => Err(error),
    }
}

/// A completion-based LLM request sanitizer: null omits the payload, anything else is
/// decoded as the sanitized request.
pub fn wrap_async_llm_sanitize_request_fn<V>(stage: AsyncDecodedStage<SanitizeCall, V>) -> (step:
    AsyncDecodedStep<Option<V>>)
    ensures
        match stage {
            AsyncDecodedStage::Start(call) => match sanitize_envelope(call, "request"@) {
                Ok(envelope) => invokes_decoded(step, envelope),
                Err(error) => step matches AsyncDecodedStep::Finish(Err(failure))
                    && failure.deep_view() == error,
            },
            AsyncDecodedStage::Settled(settled) => match outcome(settled) {
                Ok(JsonModel::Null) => step matches AsyncDecodedStep::Finish(Ok(None)),
                _ => decodes(step, outcome(settled)) && match settled {
                    Ok(value) => step == AsyncDecodedStep::<Option<V>>::Decode(value),
                    Err(error) => step == AsyncDecodedStep::<Option<V>>::Finish(Err(error)),
                },
            },
            AsyncDecodedStage::Decoded(Ok(request)) => step == AsyncDecodedStep::<
                Option<V>,
            >::Finish(Ok(Some(request))),
            AsyncDecodedStage::Decoded(Err(error)) => step matches AsyncDecodedStep::Finish(
                Err(failure),
            ) && failure.deep_view() == FlowErrorModel::Internal(error@),
        },
{
    match stage {
        AsyncDecodedStage::Start(call) => match envelop_sanitize(&call, "request") {
            Ok(envelope) => AsyncDecodedStep::Invoke(envelope),
            Err(error) => AsyncDecodedStep::Finish(Err(error)),
        },
        AsyncDecodedStage::Settled(Ok(Json::Null)) => AsyncDecodedStep::Finish(Ok(None)),
        AsyncDecodedStage::Settled(settled) => decode(settled),
        AsyncDecodedStage::Decoded(Ok(request)) => AsyncDecodedStep::Finish(Ok(Some(request))),
        AsyncDecodedStage::Decoded(Err(error)) => AsyncDecodedStep::Finish(
            Err(FlowError::Internal(error)),
        ),
    }
}

/// The response in a settled value: null omits it.
pub open spec fn async_response(settled: Result<JsonModel, FlowErrorModel>) -> Result<
    Option<JsonModel>,
    FlowErrorModel,
> {
    match settled {
        Ok(JsonModel::Null) => Ok(None),
        Ok(value) => Ok(Some(value)),
        Err(error) => Err(error),
    }
}

/// A completion-based LLM response sanitizer: null omits the payload, anything else
/// is the sanitized response.
pub fn wrap_async_llm_sanitize_response_fn(stage: AsyncStage<SanitizeCall>) -> (step: AsyncStep<
    Option<Json>,
>)
    ensures
        match stage {
            AsyncStage::Start(call) => match sanitize_envelope(call, "response"@) {
                Ok(envelope) => invokes(step, envelope),
                Err(error) => settles(step, Err(error)),
            },
            AsyncStage::Settled(settled) => settles(step, async_response(outcome(settled)))
                && match settled {
                Ok(Json::Null) => step == AsyncStep::<Option<Json>>::Finish(Ok(None)),
                Ok(value) => step == AsyncStep::<Option<Json>>::Finish(Ok(Some(value))),
                Err(error) => step == AsyncStep::<Option<Json>>::Finish(Err(error)),
            },
        },
{
    match stage {
        AsyncStage::Start(call) => match envelop_sanitize(&call, "response") {
            Ok(envelope) => AsyncStep::Invoke(envelope),
            Err(error) => AsyncStep::Finish(Err(error)),
        },
        AsyncStage::Settled(settled) => AsyncStep::Finish(
            match settled {
                Ok(value) => if value.is_null() {
                    Ok(None)
                } else {
                    Ok(Some(value))
                },
                Err(error) => Err(error),
            },
        ),
    }
}

/// An LLM request at a request intercept, as JSON.
pub struct InterceptCall {
    /// The intercept's name.
    pub name: String,
    /// The request.
    pub request: Json,
    /// The annotated request, if a codec resolved it.
    pub annotated: Option<Json>,
}

/// The envelope of an LLM request intercept.
pub open spec fn intercept_envelope(call: InterceptCall) -> JsonModel {
    JsonModel::Other(
        object_text(
            seq![
                member_text("annotated"@, request_text(call.annotated.deep_view())),
                member_text("name"@, JsonModel::String(call.name@).text()),
                member_text("request"@, call.request.deep_view().text()),
            ],
        ),
    )
}

/// A completion-based LLM request intercept: the settled value is decoded as its
/// outcome.
pub fn wrap_async_llm_request_intercept_fn<V>(stage: AsyncDecodedStage<InterceptCall, V>) -> (step:
    AsyncDecodedStep<V>)
    ensures
        match stage {
            AsyncDecodedStage::Start(call) => invokes_decoded(step, intercept_envelope(call)),
            AsyncDecodedStage::Settled(settled) => decodes(step, outcome(settled))
                && match settled {
                Ok(value) => step == AsyncDecodedStep::<V>::Decode(value),
                Err(error) => step == AsyncDecodedStep::<V>::Finish(Err(error)),
            },
            AsyncDecodedStage::Decoded(decoded) => ends_decoded(
                step,
                decoded,
                "invalid LLM request intercept outcome: "@,
            ),
        },
{
    match stage {
        AsyncDecodedStage::Start(call) => {
            let annotated = match &call.annotated {
                Some(annotated) => annotated.to_text(),
                None => Json::Null.to_text(),
            };
            assert(annotated@ == request_text(call.annotated.deep_view()));
            let name = Json::String(call.name).to_text();
            let members = vec![
                Member { key: "annotated", value: annotated },
                Member { key: "name", value: name },
                Member { key: "request", value: call.request.to_text() },
            ];
            assert(members@.map_values(
                |member: Member| member_text(member.key@, member.value@),
            ) =~= seq![
                member_text("annotated"@, annotated@),
                member_text("name"@, name@),
                member_text("request"@, call.request.deep_view().text()),
            ]);
            AsyncDecodedStep::Invoke(object(&members))
        },
        AsyncDecodedStage::Settled(settled) => decode(settled),
        AsyncDecodedStage::Decoded(decoded) => end_decoded(
            decoded,
            "invalid LLM request intercept outcome: ",
        ),
    }
}

/// A completion-based tool execution intercept: the settled value is decoded as its
/// outcome.
pub fn wrap_async_tool_execution_intercept_fn<V>(stage: AsyncDecodedStage<ToolCall, V>) -> (step:
    AsyncDecodedStep<V>)
    ensures
        match stage {
            AsyncDecodedStage::Start(call) => invokes_decoded(step, tool_envelope(call)),
            AsyncDecodedStage::Settled(settled) => decodes(step, outcome(settled))
                && match settled {
                Ok(value) => step == AsyncDecodedStep::<V>::Decode(value),
                Err(error) => step == AsyncDecodedStep::<V>::Finish(Err(error)),
            },
            AsyncDecodedStage::Decoded(decoded) => ends_decoded(
                step,
                decoded,
                "invalid tool outcome: "@,
            ),
        },
{
    match stage {
        AsyncDecodedStage::Start(call) => AsyncDecodedStep::Invoke(envelop_tool(call)),
        AsyncDecodedStage::Settled(settled) => decode(settled),
        AsyncDecodedStage::Decoded(decoded) => end_decoded(decoded, "invalid tool outcome: "),
    }
}

/// A completion-based LLM execution intercept: the settled value is the response.
pub fn wrap_async_llm_execution_intercept_fn(stage: AsyncStage<NamedRequest>) -> (step: AsyncStep<
    Json,
>)
    ensures
        match stage {
            AsyncStage::Start(call) => invokes(step, request_envelope(call)),
            AsyncStage::Settled(settled) => settles(step, outcome(settled)) && step
                == AsyncStep::<Json>::Finish(settled),
        },
{
    match stage {
        AsyncStage::Start(call) => AsyncStep::Invoke(envelop_request(call)),
        AsyncStage::Settled(settled) => AsyncStep::Finish(settled),
    }
}

/// A completion-based streaming LLM execution intercept: the settled value must be
/// an array, which is replayed chunk by chunk, each as compact JSON text.
pub fn wrap_async_llm_stream_execution_intercept_fn(stage: AsyncStage<NamedRequest>) -> (step:
    AsyncStep<Vec<String>>)
    ensures
        match stage {
            AsyncStage::Start(call) => invokes(step, request_envelope(call)),
            AsyncStage::Settled(settled) => settles(
                step,
                match outcome(settled) {
                    Ok(value) => replayed(value),
                    Err(error) => Err(error),
                },
            ) && match settled {
                Ok(Json::Array(items)) => step == AsyncStep::<Vec<String>>::Finish(Ok(items)),
                Ok(_) => true,
                Err(error) => step == AsyncStep::<Vec<String>>::Finish(Err(error)),
            },
        },
{
    match stage {
        AsyncStage::Start(call) => AsyncStep::Invoke(envelop_request(call)),
        AsyncStage::Settled(settled) => AsyncStep::Finish(
            match settled {
                Ok(value) => replay_chunks(value),
                Err(error) => Err(error),
            },
        ),
    }
}

/// A completion-based event sanitizer callback that is running.
pub struct ActiveEventSanitizerCallback;

/// The count of running callbacks after one more has entered.
pub open spec fn entered(active: usize) -> usize {
    if active == usize::MAX {
        0
    } else {
        (active + 1) as usize
    }
}

/// The count of running callbacks after one has left.
pub open spec fn left(active: usize) -> usize {
    if active == 0 {
        usize::MAX
    } else {
        (active - 1) as usize
    }
}

impl ActiveEventSanitizerCallback {
    /// Counts a callback that starts to run.
    pub fn enter(active: &mut usize) -> (callback: Self)
        ensures
            *final(active) == entered(*old(active)),
    {
        *active = active.wrapping_add(1);
        ActiveEventSanitizerCallback
    }

    /// Counts a callback that has run.
    pub fn leave(self, active: &mut usize)
        ensures
            *final(active) == left(*old(active)),
    {
        *active = active.wrapping_sub(1);
    }
}

/// Whether a completion-based event sanitizer callback is running.
pub fn event_sanitizer_callback_active(active: usize) -> (running: bool)
    ensures
        running == (active != 0),
{
    active != 0
}

/// The count of running callbacks after callbacks have entered (`true`) and left
/// (`false`).
pub open spec fn active_after(events: Seq<bool>) -> usize
    decreases events.len(),
{
    if events.len() == 0 {
        0
    } else if events.last() {
        entered(active_after(events.drop_last()))
    } else {
        left(active_after(events.drop_last()))
    }
}

/// How many callbacks have entered and not left.
pub open spec fn running(events: Seq<bool>) -> int
    decreases events.len(),
{
    if events.len() == 0 {
        0
    } else if events.last() {
        running(events.drop_last()) + 1
    } else {
        running(events.drop_last()) - 1
    }
}

/// As long as no callback leaves that has not entered, and the count of running
/// callbacks fits a machine word, the count is that of the callbacks still running:
/// the sanitizer counts as active exactly while one of them has not left.
pub proof fn law_sanitizer_is_active_while_a_callback_runs(events: Seq<bool>)
    requires
        forall|i: int|
            0 <= i <= events.len() ==> 0 <= #[trigger] running(events.take(i)) <= usize::MAX,
    ensures
        active_after(events) == running(events),
    decreases events.len(),
{
    assert(events.take(events.len() as int) =~= events);
    if events.len() > 0 {
        let earlier = events.drop_last();
        assert(earlier.take(earlier.len() as int) =~= earlier);
        assert forall|i: int| 0 <= i <= earlier.len() implies 0 <= #[trigger] running(
            earlier.take(i),
        ) <= usize::MAX by {
            assert(earlier.take(i) =~= events.take(i));
        }
        law_sanitizer_is_active_while_a_callback_runs(earlier);
        assert(running(events.take(events.len() as int)) <= usize::MAX);
    }
}

/// A conditional guardrail lets through exactly what it settles with null, and a
/// settled string is handed on unchanged as the reason to reject.
pub proof fn law_async_guardrail_allows_only_null(settled: JsonModel)
    ensures
        async_verdict(Ok(settled)) == Ok::<Option<Seq<char>>, FlowErrorModel>(None) <==> settled
            == JsonModel::Null,
        async_verdict(Ok(settled)) is Err <==> settled is Array || settled is Other,
        settled matches JsonModel::String(reason) ==> async_verdict(Ok(settled)) == Ok::<
            Option<Seq<char>>,
            FlowErrorModel,
        >(Some(reason)),
{
}

proof fn lemma_two_members_are_written(
    key: Seq<char>,
    value: JsonModel,
    other_key: Seq<char>,
    other: JsonModel,
)
    ensures
        object_of_two(key, value, other_key, other) == JsonModel::Other(
            seq!['{'] + json_quoted(key) + seq![':'] + value.text() + seq![','] + json_quoted(
                other_key,
            ) + seq![':'] + other.text() + seq!['}'],
        ),
{
    let first = member_text(key, value.text());
    let second = member_text(other_key, other.text());
    let members = seq![first, second];
    reveal_with_fuel(comma_joined, 3);
    assert(members.drop_last() =~= seq![first]);
    assert(object_text(members) =~= seq!['{'] + json_quoted(key) + seq![':'] + value.text()
        + seq![','] + json_quoted(other_key) + seq![':'] + other.text() + seq!['}']);
}

/// Whether `envelope` is the object that holds exactly these two values, each with its
/// whole text under its key.
pub open spec fn holds_both(
    envelope: Json,
    key: Seq<char>,
    value: JsonModel,
    other_key: Seq<char>,
    other: JsonModel,
) -> bool {
    envelope matches Json::Other(text) && text@ == seq!['{'] + json_quoted(key) + seq![':']
        + value.text() + seq![','] + json_quoted(other_key) + seq![':'] + other.text() + seq!['}']
}

/// Every tool callback is invoked with the tool's name and with the whole text of its
/// arguments, whatever kind of value they are.
pub proof fn law_async_tool_envelope_holds_name_and_arguments<V>(
    call: ToolCall,
    json: AsyncStep<Json>,
    conditional: AsyncStep<Option<String>>,
    intercept: AsyncDecodedStep<V>,
)
    requires
        call_ensures(wrap_async_tool_json_fn, (AsyncStage::Start(call),), json),
        call_ensures(wrap_async_tool_conditional_fn, (AsyncStage::Start(call),), conditional),
        call_ensures(
            wrap_async_tool_execution_intercept_fn::<V>,
            (AsyncDecodedStage::<ToolCall, V>::Start(call),),
            intercept,
        ),
    ensures
        ({
            let name = JsonModel::String(call.name@);
            let args = call.args.deep_view();
            &&& json matches AsyncStep::Invoke(envelope) && holds_both(
                envelope,
                "name"@,
                name,
                "value"@,
                args,
            )
            &&& conditional matches AsyncStep::Invoke(envelope) && holds_both(
                envelope,
                "name"@,
                name,
                "value"@,
                args,
            )
            &&& intercept matches AsyncDecodedStep::Invoke(envelope) && holds_both(
                envelope,
                "name"@,
                name,
                "value"@,
                args,
            )
        }),
{
    lemma_two_members_are_written(
        "name"@,
        JsonModel::String(call.name@),
        "value"@,
        call.args.deep_view(),
    );
}

/// Every LLM execution intercept is invoked with its name and with the whole text of the
/// request; an LLM guardrail with the request alone; and an event sanitizer with the
/// event and its fields.
pub proof fn law_async_llm_envelope_holds_the_request<V>(
    call: NamedRequest,
    execution: AsyncStep<Json>,
    stream: AsyncStep<Vec<String>>,
    request: Json,
    conditional: AsyncStep<Option<String>>,
    event: EventCall,
    sanitizer: AsyncDecodedStep<V>,
)
    requires
        call_ensures(wrap_async_llm_execution_intercept_fn, (AsyncStage::Start(call),), execution),
        call_ensures(
            wrap_async_llm_stream_execution_intercept_fn,
            (AsyncStage::Start(call),),
            stream,
        ),
        call_ensures(wrap_async_llm_conditional_fn, (AsyncStage::Start(request),), conditional),
        call_ensures(
            wrap_async_event_sanitize_fn::<V>,
            (AsyncDecodedStage::<EventCall, V>::Start(event),),
            sanitizer,
        ),
    ensures
        execution matches AsyncStep::Invoke(envelope) && holds_both(
            envelope,
            "name"@,
            JsonModel::String(call.name@),
            "request"@,
            call.request.deep_view(),
        ),
        stream matches AsyncStep::Invoke(envelope) && holds_both(
            envelope,
            "name"@,
            JsonModel::String(call.name@),
            "request"@,
            call.request.deep_view(),
        ),
        conditional matches AsyncStep::Invoke(Json::Other(text)) && text@ == seq!['{']
            + json_quoted("request"@) + seq![':'] + request.deep_view().text() + seq!['}'],
        sanitizer matches AsyncDecodedStep::Invoke(envelope) && holds_both(
            envelope,
            "event"@,
            event.event.deep_view(),
            "fields"@,
            event.fields.deep_view(),
        ),
{
    lemma_two_members_are_written(
        "name"@,
        JsonModel::String(call.name@),
        "request"@,
        call.request.deep_view(),
    );
    lemma_two_members_are_written(
        "event"@,
        event.event.deep_view(),
        "fields"@,
        event.fields.deep_view(),
    );
    let member = member_text("request"@, request.deep_view().text());
    assert(seq![member][0] == member);
    assert(object_text(seq![member]) =~= seq!['{'] + json_quoted("request"@) + seq![':']
        + request.deep_view().text() + seq!['}']);
}

/// A request intercept is invoked with the annotated request, or null where there is none,
/// with its name, and with the whole text of the request.
pub proof fn law_async_intercept_envelope_holds_the_request<V>(
    call: InterceptCall,
    step: AsyncDecodedStep<V>,
)
    requires
        call_ensures(
            wrap_async_llm_request_intercept_fn::<V>,
            (AsyncDecodedStage::<InterceptCall, V>::Start(call),),
            step,
        ),
    ensures
        step matches AsyncDecodedStep::Invoke(Json::Other(text)) && text@ == seq!['{']
            + json_quoted("annotated"@) + seq![':'] + (match call.annotated {
            Some(annotated) => annotated.deep_view().text(),
            None => "null"@,
        }) + seq![','] + json_quoted("name"@) + seq![':'] + json_quoted(call.name@) + seq![',']
            + json_quoted("request"@) + seq![':'] + call.request.deep_view().text() + seq!['}'],
{
    let annotated = match call.annotated {
        Some(annotated) => annotated.deep_view().text(),
        None => "null"@,
    };
    let first = member_text("annotated"@, annotated);
    let second = member_text("name"@, json_quoted(call.name@));
    let third = member_text("request"@, call.request.deep_view().text());
    let members = seq![first, second, third];
    reveal_with_fuel(comma_joined, 4);
    assert(members.drop_last() =~= seq![first, second]);
    assert(members.drop_last().drop_last() =~= seq![first]);
    assert(object_text(members) =~= seq!['{'] + json_quoted("annotated"@) + seq![':'] + annotated
        + seq![','] + json_quoted("name"@) + seq![':'] + json_quoted(call.name@) + seq![',']
        + json_quoted("request"@) + seq![':'] + call.request.deep_view().text() + seq!['}']);
}

/// A sanitizer is invoked with the identity of the codec and the whole text of its
/// payload. An identity that cannot cross fails the call, without any invocation.
pub proof fn law_async_sanitizer_envelope_holds_the_payload<V>(
    call: SanitizeCall,
    request: AsyncDecodedStep<Option<V>>,
    response: AsyncStep<Option<Json>>,
    context: FlowResult<Json>,
)
    requires
        call_ensures(
            wrap_async_llm_sanitize_request_fn::<V>,
            (AsyncDecodedStage::<SanitizeCall, V>::Start(call),),
            request,
        ),
        call_ensures(wrap_async_llm_sanitize_response_fn, (AsyncStage::Start(call),), response),
        call_ensures(ffi_codec_identity_json, (&call.identity,), context),
    ensures
        context matches Ok(identity) ==> {
            &&& request matches AsyncDecodedStep::Invoke(envelope) && holds_both(
                envelope,
                "context"@,
                identity.deep_view(),
                "request"@,
                call.payload.deep_view(),
            )
            &&& response matches AsyncStep::Invoke(envelope) && holds_both(
                envelope,
                "context"@,
                identity.deep_view(),
                "response"@,
                call.payload.deep_view(),
            )
        },
        context matches Err(error) ==> {
            &&& request matches AsyncDecodedStep::Finish(Err(failure)) && failure.deep_view()
                == error.deep_view()
            &&& response matches AsyncStep::Finish(Err(failure)) && failure.deep_view()
                == error.deep_view()
        },
{
    if let Ok(identity) = context {
        lemma_two_members_are_written(
            "context"@,
            identity.deep_view(),
            "request"@,
            call.payload.deep_view(),
        );
        lemma_two_members_are_written(
            "context"@,
            identity.deep_view(),
            "response"@,
            call.payload.deep_view(),
        );
    }
}

/// A tool sanitizer, a tool request intercept and an LLM execution intercept end with
/// exactly what was settled: the value, of whatever kind, or the error.
pub proof fn law_settled_value_is_the_result(
    settled: FlowResult<Json>,
    tool: AsyncStep<Json>,
    llm: AsyncStep<Json>,
)
    requires
        call_ensures(wrap_async_tool_json_fn, (AsyncStage::<ToolCall>::Settled(settled),), tool),
        call_ensures(
            wrap_async_llm_execution_intercept_fn,
            (AsyncStage::<NamedRequest>::Settled(settled),),
            llm,
        ),
    ensures
        tool == AsyncStep::<Json>::Finish(settled),
        llm == AsyncStep::<Json>::Finish(settled),
{
}

/// A callback whose value is decoded has exactly the settled value decoded, objects as
/// well as arrays, strings and null: it is the same value, with the same text. An error
/// ends the call as it is.
pub proof fn law_settled_value_is_what_is_decoded<V>(
    settled: FlowResult<Json>,
    step: AsyncDecodedStep<V>,
)
    requires
        call_ensures(
            wrap_async_event_sanitize_fn::<V>,
            (AsyncDecodedStage::<EventCall, V>::Settled(settled),),
            step,
        ) || call_ensures(
            wrap_async_llm_request_intercept_fn::<V>,
            (AsyncDecodedStage::<InterceptCall, V>::Settled(settled),),
            step,
        ) || call_ensures(
            wrap_async_tool_execution_intercept_fn::<V>,
            (AsyncDecodedStage::<ToolCall, V>::Settled(settled),),
            step,
        ),
    ensures
        settled matches Ok(value) ==> (step matches AsyncDecodedStep::Decode(made) && made == value
            && made.deep_view().text() == value.deep_view().text()),
        settled matches Err(error) ==> step == AsyncDecodedStep::<V>::Finish(Err(error)),
{
}

/// What a settled value was decoded as is the result, unchanged. What could not be decoded
/// fails the call, and says of what and why.
pub proof fn law_decoded_value_is_the_result<V>(
    decoded: Result<V, String>,
    event: AsyncDecodedStep<V>,
    request: AsyncDecodedStep<V>,
    tool: AsyncDecodedStep<V>,
)
    requires
        call_ensures(
            wrap_async_event_sanitize_fn::<V>,
            (AsyncDecodedStage::<EventCall, V>::Decoded(decoded),),
            event,
        ),
        call_ensures(
            wrap_async_llm_request_intercept_fn::<V>,
            (AsyncDecodedStage::<InterceptCall, V>::Decoded(decoded),),
            request,
        ),
        call_ensures(
            wrap_async_tool_execution_intercept_fn::<V>,
            (AsyncDecodedStage::<ToolCall, V>::Decoded(decoded),),
            tool,
        ),
    ensures
        decoded matches Ok(value) ==> {
            &&& event matches AsyncDecodedStep::Finish(Ok(made)) && made == value
            &&& request matches AsyncDecodedStep::Finish(Ok(made)) && made == value
            &&& tool matches AsyncDecodedStep::Finish(Ok(made)) && made == value
        },
        decoded matches Err(error) ==> {
            &&& event matches AsyncDecodedStep::Finish(Err(FlowError::Internal(text))) && text@
                == "invalid event fields: "@ + error@
            &&& request matches AsyncDecodedStep::Finish(Err(FlowError::Internal(text))) && text@
                == "invalid LLM request intercept outcome: "@ + error@
            &&& tool matches AsyncDecodedStep::Finish(Err(FlowError::Internal(text))) && text@
                == "invalid tool outcome: "@ + error@
        },
{
}

/// An async response sanitizer omits the payload exactly where it settles with null, and
/// ends with the very value it settled with everywhere else, objects among them.
pub proof fn law_async_response_is_omitted_only_by_null(
    settled: FlowResult<Json>,
    step: AsyncStep<Option<Json>>,
)
    requires
        call_ensures(
            wrap_async_llm_sanitize_response_fn,
            (AsyncStage::<SanitizeCall>::Settled(settled),),
            step,
        ),
    ensures
        settled matches Ok(value) ==> {
            &&& value is Null <==> step == AsyncStep::<Option<Json>>::Finish(Ok(None))
            &&& !(value is Null) ==> step == AsyncStep::<Option<Json>>::Finish(Ok(Some(value)))
        },
        settled matches Err(error) ==> step == AsyncStep::<Option<Json>>::Finish(Err(error)),
{
}

/// An async request sanitizer omits the payload exactly where it settles with null, and
/// has the very value it settled with decoded everywhere else; what that was decoded as is
/// the sanitized request.
pub proof fn law_async_request_is_omitted_only_by_null<V>(
    settled: FlowResult<Json>,
    step: AsyncDecodedStep<Option<V>>,
    decoded: Result<V, String>,
    ended: AsyncDecodedStep<Option<V>>,
)
    requires
        call_ensures(
            wrap_async_llm_sanitize_request_fn::<V>,
            (AsyncDecodedStage::<SanitizeCall, V>::Settled(settled),),
            step,
        ),
        call_ensures(
            wrap_async_llm_sanitize_request_fn::<V>,
            (AsyncDecodedStage::<SanitizeCall, V>::Decoded(decoded),),
            ended,
        ),
    ensures
        settled matches Ok(value) ==> {
            &&& value is Null <==> step == AsyncDecodedStep::<Option<V>>::Finish(Ok(None))
            &&& !(value is Null) ==> step == AsyncDecodedStep::<Option<V>>::Decode(value)
        },
        settled matches Err(error) ==> step == AsyncDecodedStep::<Option<V>>::Finish(Err(error)),
        decoded matches Ok(request) ==> ended == AsyncDecodedStep::<Option<V>>::Finish(
            Ok(Some(request)),
        ),
        decoded matches Err(error) ==> (ended matches AsyncDecodedStep::Finish(
            Err(FlowError::Internal(text)),
        ) && text@ == error@),
{
}

/// An async guardrail lets the call through exactly where it settles with null, rejects
/// with exactly the string it settles with, and fails with any other value, which the
/// error quotes. An error ends the call as it is.
pub proof fn law_async_guardrail_rejects_with_its_string(
    settled: FlowResult<Json>,
    step: AsyncStep<Option<String>>,
)
    requires
        call_ensures(
            wrap_async_tool_conditional_fn,
            (AsyncStage::<ToolCall>::Settled(settled),),
            step,
        ) || call_ensures(
            wrap_async_llm_conditional_fn,
            (AsyncStage::<Json>::Settled(settled),),
            step,
        ),
    ensures
        settled matches Ok(Json::Null) ==> step == AsyncStep::<Option<String>>::Finish(Ok(None)),
        settled matches Ok(Json::String(reason)) ==> (step matches AsyncStep::Finish(
            Ok(Some(made)),
        ) && made@ == reason@),
        settled matches Ok(value) ==> (value is Array || value is Other ==> (step matches
            AsyncStep::Finish(Err(FlowError::Internal(text))) && text@
            == "async conditional callback returned "@ + value.deep_view().text()
            + "; expected string or null"@)),
        settled matches Err(error) ==> step == AsyncStep::<Option<String>>::Finish(Err(error)),
{
}

/// A streaming intercept replays exactly the elements of the array it settles with, in
/// order, whatever they are, and fails with any other value. An error ends the call as it
/// is.
pub proof fn law_async_stream_replays_the_array(
    settled: FlowResult<Json>,
    step: AsyncStep<Vec<String>>,
)
    requires
        call_ensures(
            wrap_async_llm_stream_execution_intercept_fn,
            (AsyncStage::<NamedRequest>::Settled(settled),),
            step,
        ),
    ensures
        settled matches Ok(Json::Array(items)) ==> step == AsyncStep::<Vec<String>>::Finish(
            Ok(items),
        ),
        settled matches Ok(value) ==> (!(value is Array) ==> (step matches AsyncStep::Finish(
            Err(FlowError::Internal(text)),
        ) && text@ == "async stream intercept must resolve to an array"@)),
        settled matches Err(error) ==> step == AsyncStep::<Vec<String>>::Finish(Err(error)),
{
}

/// A callback that has entered counts, and one that leaves no longer does: whatever the
/// count was, leaving undoes entering, and the sanitizer counts as active exactly while
/// the count is not zero.
pub proof fn law_leaving_undoes_entering(
    entering: &mut usize,
    callback: ActiveEventSanitizerCallback,
    leaving: &mut usize,
    active: bool,
)
    requires
        call_ensures(ActiveEventSanitizerCallback::enter, (entering,), callback),
        call_ensures(ActiveEventSanitizerCallback::leave, (callback, leaving), ()),
        *old(leaving) == *final(entering),
        call_ensures(event_sanitizer_callback_active, (*final(entering),), active),
    ensures
        *final(leaving) == *old(entering),
        *old(entering) < usize::MAX ==> *final(entering) == *old(entering) + 1,
        active <==> *final(entering) != 0,
{
}

/// From the C callback to the decoder: a text that the callback resolves its completion
/// with comes out of the invocation as the value it reads as, and exactly that value is
/// what is decoded, or what the call ends with.
pub proof fn law_resolved_text_is_what_the_call_ends_with<S, H, V>(
    completion: &mut NemoRelayAsyncCompletion<S>,
    value_json: Option<Vec<u8>>,
    report: SettleReport<S>,
    waiting: NemoRelayAsyncCompletion<S>,
    end: InterceptStep<H>,
    tool: AsyncDecodedStep<V>,
    llm: AsyncStep<Json>,
    response: AsyncStep<Option<Json>>,
)
    requires
        call_ensures(
            nemo_relay_async_completion_resolve_json::<S>,
            (Some(completion), &value_json),
            report,
        ),
        report.settlement is Some,
        call_ensures(
            invoke_async_intercept::<S, H>,
            (&waiting, InterceptEvent::<H>::Received(Some(report.settlement->0.result))),
            end,
        ),
        end is Finish,
        call_ensures(
            wrap_async_tool_execution_intercept_fn::<V>,
            (AsyncDecodedStage::<ToolCall, V>::Settled(end->result),),
            tool,
        ),
        call_ensures(
            wrap_async_llm_execution_intercept_fn,
            (AsyncStage::<NamedRequest>::Settled(end->result),),
            llm,
        ),
        call_ensures(
            wrap_async_llm_sanitize_response_fn,
            (AsyncStage::<SanitizeCall>::Settled(end->result),),
            response,
        ),
    ensures
        c_json(value_json.deep_view()) matches Some(read) && {
            &&& tool matches AsyncDecodedStep::Decode(made) && made.deep_view() == read
            &&& llm matches AsyncStep::Finish(Ok(made)) && made.deep_view() == read
            &&& response matches AsyncStep::Finish(Ok(made)) && made.deep_view() == if read
                == JsonModel::Null {
                None
            } else {
                Some(read)
            }
        },
{
}

} // verus!
