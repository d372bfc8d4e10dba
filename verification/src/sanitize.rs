//! LLM sanitizers: what a C sanitizer is told about the active codec, what its
//! answer means, and who owns the strings and requests that changed hands.

use vstd::prelude::*;
use vstd::utf8::*;

use crate::codec::{
    codec_identity, ffi_codec_identity, FfiCodecIdentity, IdentityModel, LlmCodecIdentity,
    NemoRelayLlmSanitizeCodecKind,
};
use crate::error::{FlowError, FlowErrorModel, FlowResult};
use crate::json::{c_json, c_str_to_json, json_to_c_string, survives, Json, JsonModel};
use crate::text::c_text;

verus! {

/// Codec context supplied to an LLM request sanitizer.
pub struct NemoRelayLlmSanitizeRequestContext<K> {
    /// Kind of active codec identity.
    pub codec_kind: NemoRelayLlmSanitizeCodecKind,
    /// ID of the codec, where it has one.
    pub codec_id: Option<String>,
    /// Request codec capability, where a codec is active.
    pub codec: Option<K>,
}

/// Codec context supplied to an LLM response sanitizer.
pub struct NemoRelayLlmSanitizeResponseContext<K> {
    /// Kind of active codec identity.
    pub codec_kind: NemoRelayLlmSanitizeCodecKind,
    /// ID of the codec, where it has one.
    pub codec_id: Option<String>,
    /// Response codec capability, where a codec is active.
    pub codec: Option<K>,
}

impl<K> NemoRelayLlmSanitizeRequestContext<K> {
    /// Whether the context tells of this identity and capability.
    pub open spec fn tells(self, identity: IdentityModel, codec: Option<K>) -> bool {
        &&& self.codec_kind == identity.kind
        &&& self.codec_id.deep_view() == identity.id
        &&& self.codec == codec
    }
}

impl<K> NemoRelayLlmSanitizeResponseContext<K> {
    /// Whether the context tells of this identity and capability.
    pub open spec fn tells(self, identity: IdentityModel, codec: Option<K>) -> bool {
        &&& self.codec_kind == identity.kind
        &&& self.codec_id.deep_view() == identity.id
        &&& self.codec == codec
    }
}

/// An error that is also recorded as the last error message.
pub struct RecordedFailure {
    /// The last error message.
    pub last_error: String,
    /// The error.
    pub error: FlowError,
}

impl RecordedFailure {
    /// Whether this records the given error.
    pub open spec fn records(self, error: FlowErrorModel) -> bool {
        &&& self.error.deep_view() == error
        &&& self.last_error@ == error.text()
    }
}

fn record(error: FlowError) -> (failure: RecordedFailure)
    ensures
        failure.records(error.deep_view()),
{
    RecordedFailure { last_error: error.message(), error }
}

/// How far sanitizing a request has come.
pub enum SanitizeRequestStage<Q, K> {
    /// What the caller passed in.
    Start {
        /// The active codec.
        identity: LlmCodecIdentity,
        /// Its capability.
        codec: Option<K>,
        /// The request.
        request: Q,
    },
    /// The callback returned. Addresses are those of boxed requests; zero is null.
    Returned {
        /// Where the request that was handed in lies.
        request_address: usize,
        /// Where the returned request lies.
        result_address: usize,
    },
}

/// Which boxed requests the relay takes and drops once a sanitizer has returned.
#[derive(Debug, Clone, Copy, PartialEq, Eq, Structural)]
pub struct RequestOwnership {
    /// The box whose request is the sanitized one; `None` where the payload is
    /// omitted.
    pub take: Option<usize>,
    /// The box to drop.
    pub release: Option<usize>,
}

/// How sanitizing a request goes on.
pub enum SanitizeRequestStep<Q, K> {
    /// Clear the last error message and call the callback.
    Call {
        /// The request.
        request: Q,
        /// The codec context.
        context: NemoRelayLlmSanitizeRequestContext<K>,
    },
    /// Clear the last error message, record this failure, and fail with it.
    Fail(RecordedFailure),
    /// The sanitizer is done with.
    Finish(RequestOwnership),
}

/// What becomes of the boxes: nothing returned omits the payload, the request
/// itself passes through, and any other request replaces it.
pub open spec fn request_ownership(request: usize, result: usize) -> RequestOwnership {
    if result == 0 {
        RequestOwnership { take: None, release: Some(request) }
    } else if result == request {
        RequestOwnership { take: Some(request), release: None }
    } else {
        RequestOwnership { take: Some(result), release: Some(request) }
    }
}

/// One step of a synchronous LLM request sanitizer.
pub fn wrap_llm_sanitize_request_fn<Q, K>(stage: SanitizeRequestStage<Q, K>) -> (step:
    SanitizeRequestStep<Q, K>)
    ensures
        match stage {
            SanitizeRequestStage::Start { identity, codec, request } => match codec_identity(
                identity,
            ) {
                Ok(crossed) => step matches SanitizeRequestStep::Call { request: handed, context }
                    && handed == request && context.tells(crossed, codec),
                Err(error) => step matches SanitizeRequestStep::Fail(failure) && failure.records(
                    error,
                ),
            },
            SanitizeRequestStage::Returned { request_address, result_address } => step
                == SanitizeRequestStep::<Q, K>::Finish(
                request_ownership(request_address, result_address),
            ),
        },
{
    match stage {
        SanitizeRequestStage::Start { identity, codec, request } => match ffi_codec_identity(
            &identity,
        ) {
            Ok(crossed) => SanitizeRequestStep::Call {
                request,
                context: NemoRelayLlmSanitizeRequestContext {
                    codec_kind: crossed.kind,
                    codec_id: crossed.id,
                    codec,
                },
            },
            Err(error) => SanitizeRequestStep::Fail(record(error)),
        },
        SanitizeRequestStage::Returned { request_address, result_address } => {
            SanitizeRequestStep::Finish(
                if result_address == 0 {
                    RequestOwnership { take: None, release: Some(request_address) }
                } else if result_address == request_address {
                    RequestOwnership { take: Some(request_address), release: None }
                } else {
                    RequestOwnership { take: Some(result_address), release: Some(request_address) }
                },
            )
        },
    }
}

/// Every box is accounted for exactly once: what the relay made is either taken
/// back or dropped, a request that the callback made is taken, and no box is both
/// taken and dropped.
pub proof fn law_sanitized_requests_have_one_owner(request: usize, result: usize)
    requires
        request != 0,
    ensures
        ({
            let owned = request_ownership(request, result);
            &&& (owned.take == Some(request)) != (owned.release == Some(request))
            &&& result != 0 <==> owned.take == Some(result)
            &&& owned.take is Some ==> owned.release != owned.take
            &&& owned.release is Some ==> owned.release == Some(request)
        }),
{
}

/// A C string that a sanitizer returned.
pub struct ReturnedString {
    /// Where it lies.
    pub address: usize,
    /// Its bytes.
    pub bytes: Vec<u8>,
}

/// How far sanitizing a response has come.
pub enum SanitizeResponseStage<K> {
    /// What the caller passed in.
    Start {
        /// The active codec.
        identity: LlmCodecIdentity,
        /// Its capability.
        codec: Option<K>,
        /// The response.
        response: Json,
    },
    /// The callback returned; `None` for a null pointer.
    Returned {
        /// The response.
        response: Json,
        /// Where the response string that was handed in lies.
        response_address: usize,
        /// The returned string.
        result: Option<ReturnedString>,
    },
}

/// How sanitizing a response goes on.
pub enum SanitizeResponseStep<K> {
    /// Clear the last error message and call the callback.
    Call {
        /// The response, to hand in again with what the callback returns.
        response: Json,
        /// The response, as a C string.
        response_json: String,
        /// The codec context.
        context: NemoRelayLlmSanitizeResponseContext<K>,
    },
    /// Clear the last error message, record this failure, and fail with it.
    Fail(RecordedFailure),
    /// The sanitizer is done with.
    Finish {
        /// The sanitized response; `None` where the payload is omitted.
        result: Option<Json>,
        /// The strings to free, each once.
        release: Vec<usize>,
    },
}

/// What a sanitizer's answer says: the response where it returned the string that it
/// was handed, and nothing where it returned nothing, or text that is not JSON.
pub open spec fn sanitized_response(
    response: JsonModel,
    response_address: usize,
    result: Option<ReturnedString>,
) -> Option<JsonModel> {
    match result {
        Some(returned) => if returned.address == response_address {
            Some(response)
        } else {
            c_json(Some(returned.bytes@))
        },
        None => None,
    }
}

/// The strings to free once a sanitizer has returned: the one it was handed, and
/// the one it returned unless that is the same.
pub open spec fn released_strings(response: usize, result: Option<ReturnedString>) -> Seq<usize> {
    match result {
        Some(returned) if returned.address != response => seq![response, returned.address],
        _ => seq![response],
    }
}

/// One step of a synchronous LLM response sanitizer. The string that the sanitizer is
/// handed is borrowed: to return that same string is to pass the response through.
pub fn wrap_llm_sanitize_response_fn<K>(stage: SanitizeResponseStage<K>) -> (step:
    SanitizeResponseStep<K>)
    ensures
        match stage {
            SanitizeResponseStage::Start { identity, codec, response } => match codec_identity(
                identity,
            ) {
                Ok(crossed) => step matches SanitizeResponseStep::Call {
                    response: kept,
                    response_json,
                    context,
                } && kept == response && response_json@ == c_text(response.deep_view().text())
                    && context.tells(crossed, codec),
                Err(error) => step matches SanitizeResponseStep::Fail(failure) && failure.records(
                    error,
                ),
            },
            SanitizeResponseStage::Returned { response, response_address, result } => step matches
                SanitizeResponseStep::Finish { result: sanitized, release }
                && sanitized.deep_view() == sanitized_response(
                response.deep_view(),
                response_address,
                result,
            ) && release@ == released_strings(response_address, result) && (result matches Some(
                returned,
            ) ==> returned.address == response_address ==> sanitized == Some(response)),
        },
{
    match stage {
        SanitizeResponseStage::Start { identity, codec, response } => match ffi_codec_identity(
            &identity,
        ) {
            Ok(crossed) => SanitizeResponseStep::Call {
                response_json: json_to_c_string(&response),
                response,
                context: NemoRelayLlmSanitizeResponseContext {
                    codec_kind: crossed.kind,
                    codec_id: crossed.id,
                    codec,
                },
            },
            Err(error) => SanitizeResponseStep::Fail(record(error)),
        },
        SanitizeResponseStage::Returned { response, response_address, result } => match result {
            None => SanitizeResponseStep::Finish { result: None, release: vec![response_address] },
            Some(returned) => {
                if returned.address == response_address {
                    return SanitizeResponseStep::Finish {
                        result: Some(response),
                        release: vec![response_address],
                    };
                }
                let ghost bytes = returned.bytes@;
                assert(returned.bytes.deep_view() =~= bytes);
                SanitizeResponseStep::Finish {
                    result: c_str_to_json(&Some(returned.bytes)),
                    release: vec![response_address, returned.address],
                }
            },
        },
    }
}

/// Every string is freed exactly once: the one handed in, and the one returned,
/// also where the sanitizer returned what it was handed.
pub proof fn law_sanitized_strings_are_freed_once(response: usize, result: Option<ReturnedString>)
    ensures
        released_strings(response, result).no_duplicates(),
        released_strings(response, result).contains(response),
        result matches Some(returned) ==> released_strings(response, result).contains(
            returned.address,
        ),
        forall|address: usize|
            released_strings(response, result).contains(address) ==> address == response || (result
                is Some && address == result->0.address),
{
    let released = released_strings(response, result);
    assert(released[0] == response);
    if let Some(returned) = result {
        if returned.address != response {
            assert(released[1] == returned.address);
        }
    }
}

/// A sanitizer that returns the string it was handed passes the response through,
/// whatever the response is. So does one that returns a copy of that string, provided
/// the response survives as a C string, as every response does that was read from text.
pub proof fn law_handed_back_response_passes_through(
    response: JsonModel,
    response_address: usize,
    returned: ReturnedString,
)
    requires
        returned.address == response_address || (returned.bytes@ == encode_utf8(
            c_text(response.text()),
        ) && survives(response)),
    ensures
        sanitized_response(response, response_address, Some(returned)) == Some(response),
{
    encode_utf8_valid_utf8(c_text(response.text()));
    encode_utf8_decode_utf8(c_text(response.text()));
}

/// A request sanitizer is called with the very request, and is told the codec as it is
/// identified across the boundary, with its capability. An identity that cannot cross
/// fails the call, and the last error message says the same.
pub proof fn law_request_sanitizer_is_told_the_codec<Q, K>(
    identity: LlmCodecIdentity,
    codec: Option<K>,
    request: Q,
    crossed: FlowResult<FfiCodecIdentity>,
    step: SanitizeRequestStep<Q, K>,
)
    requires
        call_ensures(ffi_codec_identity, (&identity,), crossed),
        call_ensures(
            wrap_llm_sanitize_request_fn::<Q, K>,
            (SanitizeRequestStage::<Q, K>::Start { identity, codec, request },),
            step,
        ),
    ensures
        crossed matches Ok(told) ==> (step matches SanitizeRequestStep::Call {
            request: handed,
            context,
        } && handed == request && context.codec_kind == told.kind && context.codec_id.deep_view()
            == told.id.deep_view() && context.codec == codec),
        crossed matches Err(error) ==> (step matches SanitizeRequestStep::Fail(failure)
            && failure.error.deep_view() == error.deep_view() && failure.last_error@
            == error.deep_view().text()),
{
}

/// A request sanitizer that returns null omits the payload; one that returns the request it
/// was handed passes it through; and any other request replaces it. The box that was handed
/// in is dropped unless it is taken.
pub proof fn law_returned_request_is_the_sanitized_one<Q, K>(
    request_address: usize,
    result_address: usize,
    step: SanitizeRequestStep<Q, K>,
)
    requires
        call_ensures(
            wrap_llm_sanitize_request_fn::<Q, K>,
            (SanitizeRequestStage::<Q, K>::Returned { request_address, result_address },),
            step,
        ),
    ensures
        step matches SanitizeRequestStep::Finish(owned) && {
            &&& result_address == 0 ==> owned.take is None && owned.release == Some(
                request_address,
            )
            &&& result_address != 0 ==> owned.take == Some(result_address)
            &&& result_address != 0 && result_address == request_address ==> owned.release is None
            &&& result_address != 0 && result_address != request_address ==> owned.release == Some(
                request_address,
            )
        },
{
}

/// A response sanitizer is called with the whole text of the response, and is told the
/// codec as it is identified across the boundary, with its capability; the response is
/// kept as it is. An identity that cannot cross fails the call.
pub proof fn law_response_sanitizer_gets_the_response<K>(
    identity: LlmCodecIdentity,
    codec: Option<K>,
    response: Json,
    crossed: FlowResult<FfiCodecIdentity>,
    step: SanitizeResponseStep<K>,
)
    requires
        call_ensures(ffi_codec_identity, (&identity,), crossed),
        call_ensures(
            wrap_llm_sanitize_response_fn::<K>,
            (SanitizeResponseStage::<K>::Start { identity, codec, response },),
            step,
        ),
    ensures
        crossed matches Ok(told) ==> (step matches SanitizeResponseStep::Call {
            response: kept,
            response_json,
            context,
        } && kept == response && response_json@ == c_text(response.deep_view().text())
            && context.codec_kind == told.kind && context.codec_id.deep_view()
            == told.id.deep_view() && context.codec == codec),
        crossed matches Err(error) ==> (step matches SanitizeResponseStep::Fail(failure)
            && failure.error.deep_view() == error.deep_view() && failure.last_error@
            == error.deep_view().text()),
{
}

/// What a sanitizer returns is the sanitized response. A string other than the one it was
/// handed is read, and the result is what that string reads as, or nothing where it is not
/// JSON: it depends on the returned bytes alone, so that two responses for which the same
/// bytes come back have the same sanitized response, and nothing of either is left. Only
/// the string that was handed in stands for the response itself, and a null pointer omits
/// the payload.
pub proof fn law_sanitized_response_is_what_came_back<K>(
    one: Json,
    other: Json,
    response_address: usize,
    result: Option<ReturnedString>,
    first: SanitizeResponseStep<K>,
    second: SanitizeResponseStep<K>,
)
    requires
        call_ensures(
            wrap_llm_sanitize_response_fn::<K>,
            (SanitizeResponseStage::<K>::Returned { response: one, response_address, result },),
            first,
        ),
        call_ensures(
            wrap_llm_sanitize_response_fn::<K>,
            (SanitizeResponseStage::<K>::Returned { response: other, response_address, result },),
            second,
        ),
    ensures
        first is Finish && second is Finish,
        result is None ==> first->result is None && second->result is None,
        result matches Some(returned) ==> {
            &&& returned.address == response_address ==> first->result == Some(one)
                && second->result == Some(other)
            &&& returned.address != response_address ==> {
                &&& first->result.deep_view() == c_json(Some(returned.bytes@))
                &&& second->result.deep_view() == first->result.deep_view()
            }
        },
{
}

/// Once a sanitizer has returned, the string it was handed is freed, and behind it the one
/// it returned, unless that is the same or there is none.
pub proof fn law_both_strings_are_freed<K>(
    response: Json,
    response_address: usize,
    result: Option<ReturnedString>,
    step: SanitizeResponseStep<K>,
)
    requires
        call_ensures(
            wrap_llm_sanitize_response_fn::<K>,
            (SanitizeResponseStage::<K>::Returned { response, response_address, result },),
            step,
        ),
    ensures
        step is Finish,
        step->release@.len() > 0 && step->release@[0] == response_address,
        result matches Some(returned) ==> (returned.address != response_address
            ==> step->release@ == seq![response_address, returned.address]),
        result matches Some(returned) ==> (returned.address == response_address
            ==> step->release@ == seq![response_address]),
        result is None ==> step->release@ == seq![response_address],
{
}

} // verus!
