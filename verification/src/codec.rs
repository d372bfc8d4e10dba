//! Codecs: how an active codec is identified to a sanitizer, and how a codec made
//! of C callbacks decodes and encodes requests.

use vstd::prelude::*;

use crate::callable::{
    decode_reply, decodes_reply, end_decoded_call, ends_decoded_call, last_error_or,
    ptr_to_opt_string, reply_error, CallReply, DecodedCallStage, DecodedCallStep,
};
use crate::error::{
    internal, internal_error, outcome, FlowError, FlowErrorModel, FlowResult,
};
use crate::json::{
    comma_joined, json_parsed, json_quoted, member_text, object, object_text, parse_json,
    parse_model, Json, JsonModel, Member,
};
use crate::text::{has_nul, lenient_text};

verus! {

/// The codecs that the relay brings along.
#[derive(Debug, Clone, Copy, PartialEq, Eq, Structural)]
pub enum BuiltinLlmCodec {
    /// OpenAI chat completions.
    OpenAiChat,
    /// OpenAI responses.
    OpenAiResponses,
    /// Anthropic messages.
    AnthropicMessages,
}

impl BuiltinLlmCodec {
    /// The codec's ID as a character sequence.
    pub open spec fn id_text(self) -> Seq<char> {
        match self {
            BuiltinLlmCodec::OpenAiChat => "openai_chat"@,
            BuiltinLlmCodec::OpenAiResponses => "openai_responses"@,
            BuiltinLlmCodec::AnthropicMessages => "anthropic_messages"@,
        }
    }

    /// The codec's ID.
    pub fn id(&self) -> (id: &'static str)
        ensures
            id@ == self.id_text(),
    {
        match self {
            BuiltinLlmCodec::OpenAiChat => "openai_chat",
            BuiltinLlmCodec::OpenAiResponses => "openai_responses",
            BuiltinLlmCodec::AnthropicMessages => "anthropic_messages",
        }
    }
}

/// Which codec is active.
#[derive(Debug, PartialEq, Eq)]
pub enum LlmCodecIdentity {
    /// No codec.
    Absent,
    /// A codec of the relay.
    BuiltIn(BuiltinLlmCodec),
    /// A codec registered at run time, by its ID.
    Runtime(String),
    /// A codec without a registered identity.
    Opaque,
}

/// Codec identity kind supplied to an LLM sanitizer.
#[derive(Debug, Clone, Copy, PartialEq, Eq, Structural)]
pub enum NemoRelayLlmSanitizeCodecKind {
    /// No codec was active.
    Absent,
    /// A codec of the relay was active.
    BuiltIn,
    /// A codec registered at run time was active.
    Runtime,
    /// A codec was active but has no registered identity.
    Opaque,
}

impl NemoRelayLlmSanitizeCodecKind {
    /// The number that stands for the kind across the C boundary.
    pub open spec fn code_number(self) -> u32 {
        match self {
            NemoRelayLlmSanitizeCodecKind::Absent => 0,
            NemoRelayLlmSanitizeCodecKind::BuiltIn => 1,
            NemoRelayLlmSanitizeCodecKind::Runtime => 2,
            NemoRelayLlmSanitizeCodecKind::Opaque => 3,
        }
    }

    /// That number in decimal.
    pub open spec fn code_text(self) -> Seq<char> {
        match self {
            NemoRelayLlmSanitizeCodecKind::Absent => "0"@,
            NemoRelayLlmSanitizeCodecKind::BuiltIn => "1"@,
            NemoRelayLlmSanitizeCodecKind::Runtime => "2"@,
            NemoRelayLlmSanitizeCodecKind::Opaque => "3"@,
        }
    }

    /// The number that stands for the kind across the C boundary.
    pub fn code(&self) -> (code: u32)
        ensures
            code == self.code_number(),
    {
        match self {
            NemoRelayLlmSanitizeCodecKind::Absent => 0,
            NemoRelayLlmSanitizeCodecKind::BuiltIn => 1,
            NemoRelayLlmSanitizeCodecKind::Runtime => 2,
            NemoRelayLlmSanitizeCodecKind::Opaque => 3,
        }
    }

    fn code_string(&self) -> (text: String)
        ensures
            text@ == self.code_text(),
    {
        match self {
            NemoRelayLlmSanitizeCodecKind::Absent => "0".to_owned(),
            NemoRelayLlmSanitizeCodecKind::BuiltIn => "1".to_owned(),
            NemoRelayLlmSanitizeCodecKind::Runtime => "2".to_owned(),
            NemoRelayLlmSanitizeCodecKind::Opaque => "3".to_owned(),
        }
    }
}

/// Codec identity as it crosses the C boundary.
pub struct FfiCodecIdentity {
    /// Kind of active codec identity.
    pub kind: NemoRelayLlmSanitizeCodecKind,
    /// The codec's ID, where it has one.
    pub id: Option<String>,
}

/// An [`FfiCodecIdentity`] with its ID as a character sequence.
pub struct IdentityModel {
    /// See [`FfiCodecIdentity::kind`].
    pub kind: NemoRelayLlmSanitizeCodecKind,
    /// See [`FfiCodecIdentity::id`].
    pub id: Option<Seq<char>>,
}

impl DeepView for FfiCodecIdentity {
    type V = IdentityModel;

    open spec fn deep_view(&self) -> IdentityModel {
        IdentityModel { kind: self.kind, id: self.id.deep_view() }
    }
}

/// How an active codec is identified across the C boundary. Only the ID of a codec
/// registered at run time can stand in the way, by an embedded NUL.
pub open spec fn codec_identity(identity: LlmCodecIdentity) -> Result<
    IdentityModel,
    FlowErrorModel,
> {
    match identity {
        LlmCodecIdentity::Absent => Ok(
            IdentityModel { kind: NemoRelayLlmSanitizeCodecKind::Absent, id: None },
        ),
        LlmCodecIdentity::BuiltIn(codec) => Ok(
            IdentityModel {
                kind: NemoRelayLlmSanitizeCodecKind::BuiltIn,
                id: Some(codec.id_text()),
            },
        ),
        LlmCodecIdentity::Runtime(id) => if id@.contains('\0') {
            Err(FlowErrorModel::InvalidArgument("runtime codec ID contains an embedded NUL"@))
        } else {
            Ok(IdentityModel { kind: NemoRelayLlmSanitizeCodecKind::Runtime, id: Some(id@) })
        },
        LlmCodecIdentity::Opaque => Ok(
            IdentityModel { kind: NemoRelayLlmSanitizeCodecKind::Opaque, id: None },
        ),
    }
}

/// Identifies an active codec across the C boundary.
pub fn ffi_codec_identity(identity: &LlmCodecIdentity) -> (crossed: FlowResult<FfiCodecIdentity>)
    ensures
        outcome(crossed) == codec_identity(*identity),
{
    match identity {
        LlmCodecIdentity::Absent => Ok(
            FfiCodecIdentity { kind: NemoRelayLlmSanitizeCodecKind::Absent, id: None },
        ),
        LlmCodecIdentity::BuiltIn(codec) => Ok(
            FfiCodecIdentity {
                kind: NemoRelayLlmSanitizeCodecKind::BuiltIn,
                id: Some(codec.id().to_owned()),
            },
        ),
        LlmCodecIdentity::Runtime(id) => {
            if has_nul(id.as_str()) {
                return Err(
                    FlowError::InvalidArgument(
                        "runtime codec ID contains an embedded NUL".to_owned(),
                    ),
                );
            }
            Ok(
                FfiCodecIdentity {
                    kind: NemoRelayLlmSanitizeCodecKind::Runtime,
                    id: Some(id.clone()),
                },
            )
        },
        LlmCodecIdentity::Opaque => Ok(
            FfiCodecIdentity { kind: NemoRelayLlmSanitizeCodecKind::Opaque, id: None },
        ),
    }
}

/// The JSON of an optional text: the string, or null.
pub open spec fn optional_string(text: Option<Seq<char>>) -> JsonModel {
    match text {
        Some(text) => JsonModel::String(text),
        None => JsonModel::Null,
    }
}

/// The JSON that identifies a codec in the envelope of an async callback.
pub open spec fn identity_json(identity: IdentityModel) -> JsonModel {
    JsonModel::Other(
        object_text(
            seq![
                member_text("codec_id"@, optional_string(identity.id).text()),
                member_text("codec_kind"@, identity.kind.code_text()),
            ],
        ),
    )
}

/// Identifies an active codec in the envelope of an async callback.
pub fn ffi_codec_identity_json(identity: &LlmCodecIdentity) -> (json: FlowResult<Json>)
    ensures
        outcome(json) == match codec_identity(*identity) {
            Ok(crossed) => Ok(identity_json(crossed)),
            Err(error) => Err(error),
        },
{
    match ffi_codec_identity(identity) {
        Ok(crossed) => {
            let ghost id = crossed.id.deep_view();
            let id_json = match crossed.id {
                Some(text) => Json::String(text),
                None => Json::Null,
            };
            let members = vec![
                Member { key: "codec_id", value: id_json.to_text() },
                Member { key: "codec_kind", value: crossed.kind.code_string() },
            ];
            assert(members@.map_values(
                |member: Member| member_text(member.key@, member.value@),
            ) =~= seq![
                member_text("codec_id"@, optional_string(id).text()),
                member_text("codec_kind"@, crossed.kind.code_text()),
            ]);
            Ok(object(&members))
        },
        Err(error) => Err(error),
    }
}

/// A codec is identified by an ID exactly where it is one of the relay's own or was
/// registered at run time; no ID holds a NUL.
pub proof fn law_only_registered_codecs_have_an_id(identity: LlmCodecIdentity)
    requires
        codec_identity(identity) is Ok,
    ensures
        ({
            let crossed = codec_identity(identity)->Ok_0;
            &&& crossed.id is Some <==> crossed.kind == NemoRelayLlmSanitizeCodecKind::BuiltIn
                || crossed.kind == NemoRelayLlmSanitizeCodecKind::Runtime
            &&& crossed.id is Some ==> !crossed.id->0.contains('\0')
        }),
{
    reveal_strlit("openai_chat");
    reveal_strlit("openai_responses");
    reveal_strlit("anthropic_messages");
}

/// Two kinds of codec identity never share a number, nor its decimal text.
pub proof fn law_codec_kinds_are_told_apart(
    one: NemoRelayLlmSanitizeCodecKind,
    other: NemoRelayLlmSanitizeCodecKind,
)
    ensures
        one.code_number() == other.code_number() <==> one == other,
        one.code_text() == other.code_text() <==> one == other,
{
    reveal_strlit("0");
    reveal_strlit("1");
    reveal_strlit("2");
    reveal_strlit("3");
    assert("0"@[0] == '0' && "1"@[0] == '1' && "2"@[0] == '2' && "3"@[0] == '3');
}

/// An LLM request: the compact text of its header object, and its content.
#[derive(Debug, PartialEq, Eq)]
pub struct LlmRequest {
    /// The headers, as the compact text of an object.
    pub headers: String,
    /// The content.
    pub content: Json,
}

/// An [`LlmRequest`] over character sequences.
pub struct LlmRequestModel {
    /// See [`LlmRequest::headers`].
    pub headers: Seq<char>,
    /// See [`LlmRequest::content`].
    pub content: JsonModel,
}

impl DeepView for LlmRequest {
    type V = LlmRequestModel;

    open spec fn deep_view(&self) -> LlmRequestModel {
        LlmRequestModel { headers: self.headers@, content: self.content.deep_view() }
    }
}

/// A codec that delegates to a pair of C callbacks with shared user data.
pub struct FfiCodec<D, E, U> {
    /// The callback that decodes.
    pub decode_cb: D,
    /// The callback that encodes.
    pub encode_cb: E,
    /// What both callbacks are handed.
    pub user_data: U,
}

/// Makes a codec from a pair of C callbacks.
pub fn wrap_codec_fn<D, E, U>(decode_cb: D, encode_cb: E, user_data: U) -> (codec: FfiCodec<
    D,
    E,
    U,
>)
    ensures
        codec == (FfiCodec { decode_cb, encode_cb, user_data }),
{
    FfiCodec { decode_cb, encode_cb, user_data }
}

/// A call of the decode callback.
pub struct DecodeArgs<'a, D, U, Q> {
    /// The callback.
    pub callback: &'a D,
    /// What it is handed first.
    pub user_data: &'a U,
    /// The request.
    pub request: Q,
}

/// How far encoding a request has come.
pub enum EncodeStage<Q> {
    /// What the caller passed in.
    Start {
        /// The JSON text of the annotated request, or why it could not be written.
        annotated: Result<String, String>,
        /// The original request, handed over as it is.
        original: Q,
    },
    /// Why a text with an embedded NUL is no C string.
    NotCString(String),
    /// What the callback left behind, with the headers of the original request.
    Returned {
        /// The reply.
        reply: CallReply,
        /// The compact text of the original headers.
        headers: String,
    },
}

/// How encoding a request goes on. A C string that the callback returned belongs to the
/// relay; where `release_result` is set, it has to be released now.
pub enum EncodeStep<'a, E, U, Q> {
    /// Clear the last error message and call the callback.
    Call {
        /// The callback.
        callback: &'a E,
        /// What it is handed first.
        user_data: &'a U,
        /// The annotated request, as a C string.
        annotated_json: String,
        /// The original request.
        original: Q,
    },
    /// Describe why this text, which holds a NUL, is no C string.
    DescribeNul(String),
    /// The call is over.
    Finish {
        /// Its result.
        result: FlowResult<LlmRequest>,
        /// Whether the returned C string is released now.
        release_result: bool,
    },
}

/// The request with the given headers whose content is what an encode callback's reply
/// was parsed as.
pub open spec fn encoded_content(
    parsed: Result<JsonModel, Seq<char>>,
    headers: Seq<char>,
) -> Result<LlmRequestModel, FlowErrorModel> {
    match parsed {
        Ok(content) => Ok(LlmRequestModel { headers, content }),
        Err(error) => Err(internal("codec encode: invalid result JSON: "@, error)),
    }
}

/// Makes the request from what an encode callback's reply was parsed as.
pub fn request_from_reply(parsed: Result<Json, String>, headers: String) -> (request: FlowResult<
    LlmRequest,
>)
    ensures
        outcome(request) == encoded_content(parse_model(parsed), headers@),
        parsed matches Ok(content) ==> request == FlowResult::<LlmRequest>::Ok(
            LlmRequest { headers, content },
        ),
{
    match parsed {
        Ok(content) => Ok(LlmRequest { headers, content }),
        Err(error) => Err(internal_error("codec encode: invalid result JSON: ", error.as_str())),
    }
}

/// The request that an encode callback makes: its reply is the new content, beside
/// the original headers.
pub open spec fn encoded_request(
    result: Option<Seq<u8>>,
    last_error: Option<Seq<char>>,
    headers: Seq<char>,
) -> Result<LlmRequestModel, FlowErrorModel> {
    match result {
        None => Err(reply_error(last_error, "codec encode callback returned null"@)),
        Some(bytes) => encoded_content(json_parsed(lenient_text(bytes)), headers),
    }
}

impl<D, E, U> FfiCodec<D, E, U> {
    /// One step of decoding a request into an annotated one. The reply, read
    /// leniently as text, is decoded by the caller.
    pub fn decode<Q, V>(&self, stage: DecodedCallStage<Q, V>) -> (step: DecodedCallStep<
        DecodeArgs<'_, D, U, Q>,
        V,
    >)
        ensures
            match stage {
                DecodedCallStage::Start(request) => step matches DecodedCallStep::Call {
                    clear_last_error,
                    args,
                } && clear_last_error && *args.callback == self.decode_cb && *args.user_data
                    == self.user_data && args.request == request,
                DecodedCallStage::Returned(reply) => decodes_reply(
                    step,
                    reply,
                    match reply.result.deep_view() {
                        Some(bytes) => Ok(lenient_text(bytes)),
                        None => Err(
                            reply_error(
                                reply.last_error.deep_view(),
                                "codec decode callback returned null"@,
                            ),
                        ),
                    },
                ),
                DecodedCallStage::Decoded(decoded) => ends_decoded_call(
                    step,
                    decoded,
                    "codec decode: invalid JSON: "@,
                ),
            },
    {
        match stage {
            DecodedCallStage::Start(request) => DecodedCallStep::Call {
                clear_last_error: true,
                args: DecodeArgs {
                    callback: &self.decode_cb,
                    user_data: &self.user_data,
                    request,
                },
            },
            DecodedCallStage::Returned(reply) => {
                let text = match ptr_to_opt_string(&reply.result) {
                    Some(text) => Ok(text),
                    None => Err(
                        last_error_or(&reply.last_error, "codec decode callback returned null"),
                    ),
                };
                decode_reply(&reply, text)
            },
            DecodedCallStage::Decoded(decoded) => end_decoded_call(
                decoded,
                "codec decode: invalid JSON: ",
            ),
        }
    }

    /// One step of encoding an annotated request. The reply becomes the content of
    /// a request with the original headers.
    pub fn encode<Q>(&self, stage: EncodeStage<Q>) -> (step: EncodeStep<'_, E, U, Q>)
        ensures
            match stage {
                EncodeStage::Start { annotated: Ok(text), original } => if text@.contains('\0') {
                    step matches EncodeStep::DescribeNul(described) && described@ == text@
                } else {
                    step matches EncodeStep::Call {
                        callback,
                        user_data,
                        annotated_json,
                        original: handed,
                    } && *callback == self.encode_cb && *user_data == self.user_data
                        && annotated_json@ == text@ && handed == original
                },
                EncodeStage::Start { annotated: Err(error), .. } => step matches
                    EncodeStep::Finish { result: Err(failure), release_result }
                    && failure.deep_view() == internal(
                    "codec encode: serialize failed: "@,
                    error@,
                ) && !release_result,
                EncodeStage::NotCString(error) => step matches EncodeStep::Finish {
                    result: Err(failure),
                    release_result,
                } && failure.deep_view() == internal("codec encode: CString failed: "@, error@)
                    && !release_result,
                EncodeStage::Returned { reply, headers } => step matches EncodeStep::Finish {
                    result,
                    release_result,
                } && outcome(result) == encoded_request(
                    reply.result.deep_view(),
                    reply.last_error.deep_view(),
                    headers@,
                ) && release_result == reply.result is Some,
            },
    {
        match stage {
            EncodeStage::Start { annotated, original } => match annotated {
                Ok(text) => {
                    if has_nul(text.as_str()) {
                        return EncodeStep::DescribeNul(text);
                    }
                    EncodeStep::Call {
                        callback: &self.encode_cb,
                        user_data: &self.user_data,
                        annotated_json: text,
                        original,
                    }
                },
                Err(error) => EncodeStep::Finish {
                    result: Err(
                        internal_error("codec encode: serialize failed: ", error.as_str()),
                    ),
                    release_result: false,
                },
            },
            EncodeStage::NotCString(error) => EncodeStep::Finish {
                result: Err(internal_error("codec encode: CString failed: ", error.as_str())),
                release_result: false,
            },
            EncodeStage::Returned { reply, headers } => {
                let result = match ptr_to_opt_string(&reply.result) {
                    None => Err(
                        last_error_or(&reply.last_error, "codec encode callback returned null"),
                    ),
                    Some(text) => request_from_reply(parse_json(text.as_str()), headers),
                };
                EncodeStep::Finish { result, release_result: reply.result.is_some() }
            },
        }
    }
}

/// Every codec of the relay has an ID of its own.
pub proof fn law_builtin_codecs_have_their_ids(codec: BuiltinLlmCodec, id: &'static str)
    requires
        call_ensures(BuiltinLlmCodec::id, (&codec,), id),
    ensures
        codec == BuiltinLlmCodec::OpenAiChat ==> id@ == "openai_chat"@,
        codec == BuiltinLlmCodec::OpenAiResponses ==> id@ == "openai_responses"@,
        codec == BuiltinLlmCodec::AnthropicMessages ==> id@ == "anthropic_messages"@,
        id@ == codec.id_text(),
{
}

/// The kinds of codec identity are numbered from zero, in the order in which they are
/// declared, and the decimal text says the same number.
pub proof fn law_codec_kinds_are_numbered(kind: NemoRelayLlmSanitizeCodecKind, code: u32)
    requires
        call_ensures(NemoRelayLlmSanitizeCodecKind::code, (&kind,), code),
    ensures
        kind == NemoRelayLlmSanitizeCodecKind::Absent <==> code == 0,
        kind == NemoRelayLlmSanitizeCodecKind::BuiltIn <==> code == 1,
        kind == NemoRelayLlmSanitizeCodecKind::Runtime <==> code == 2,
        kind == NemoRelayLlmSanitizeCodecKind::Opaque <==> code == 3,
        kind.code_text().len() == 1 && kind.code_text()[0] == ('0' as u32 + code) as char,
{
    reveal_strlit("0");
    reveal_strlit("1");
    reveal_strlit("2");
    reveal_strlit("3");
}

/// A codec crosses the boundary as the kind it is of and with its own ID: a codec of the
/// relay with the relay's, one that was registered with the ID it was registered under,
/// and no other with any. Only a registered ID that holds a NUL keeps it from crossing.
pub proof fn law_codec_crosses_with_its_own_id(
    identity: LlmCodecIdentity,
    crossed: FlowResult<FfiCodecIdentity>,
)
    requires
        call_ensures(ffi_codec_identity, (&identity,), crossed),
    ensures
        identity is Absent ==> (crossed matches Ok(told) && told.kind
            == NemoRelayLlmSanitizeCodecKind::Absent && told.id is None),
        identity is Opaque ==> (crossed matches Ok(told) && told.kind
            == NemoRelayLlmSanitizeCodecKind::Opaque && told.id is None),
        identity matches LlmCodecIdentity::BuiltIn(codec) ==> (crossed matches Ok(told)
            && told.kind == NemoRelayLlmSanitizeCodecKind::BuiltIn && (told.id matches Some(id)
            && id@ == codec.id_text())),
        identity matches LlmCodecIdentity::Runtime(own) ==> {
            &&& !own@.contains('\0') ==> (crossed matches Ok(told) && told.kind
                == NemoRelayLlmSanitizeCodecKind::Runtime && (told.id matches Some(id) && id@
                == own@))
            &&& own@.contains('\0') ==> (crossed matches Err(FlowError::InvalidArgument(text))
                && text@ == "runtime codec ID contains an embedded NUL"@)
        },
{
}

/// In an envelope a codec is told by its ID, as a string or null, and by the number of its
/// kind; what cannot cross the boundary cannot be told either, for the same reason.
pub proof fn law_envelope_tells_id_and_kind(
    identity: LlmCodecIdentity,
    crossed: FlowResult<FfiCodecIdentity>,
    json: FlowResult<Json>,
)
    requires
        call_ensures(ffi_codec_identity, (&identity,), crossed),
        call_ensures(ffi_codec_identity_json, (&identity,), json),
    ensures
        crossed matches Ok(told) ==> (json matches Ok(Json::Other(text)) && text@ == seq!['{']
            + json_quoted("codec_id"@) + seq![':'] + (match told.id {
            Some(id) => json_quoted(id@),
            None => "null"@,
        }) + seq![','] + json_quoted("codec_kind"@) + seq![':'] + told.kind.code_text()
            + seq!['}']),
        crossed matches Err(error) ==> (json matches Err(failure) && failure.deep_view()
            == error.deep_view()),
{
    if let Ok(told) = crossed {
        let id = match told.id {
            Some(id) => json_quoted(id@),
            None => "null"@,
        };
        let first = member_text("codec_id"@, id);
        let second = member_text("codec_kind"@, told.kind.code_text());
        let members = seq![first, second];
        reveal_with_fuel(comma_joined, 3);
        assert(members.drop_last() =~= seq![first]);
        assert(object_text(members) =~= seq!['{'] + json_quoted("codec_id"@) + seq![':'] + id
            + seq![','] + json_quoted("codec_kind"@) + seq![':'] + told.kind.code_text()
            + seq!['}']);
    }
}

/// A codec made of callbacks keeps each of them, and what both are handed.
pub proof fn law_codec_keeps_its_callbacks<D, E, U>(
    decode_cb: D,
    encode_cb: E,
    user_data: U,
    codec: FfiCodec<D, E, U>,
)
    requires
        call_ensures(wrap_codec_fn::<D, E, U>, (decode_cb, encode_cb, user_data), codec),
    ensures
        codec.decode_cb == decode_cb,
        codec.encode_cb == encode_cb,
        codec.user_data == user_data,
{
}

/// Decoding calls the decode callback with the very request. Its reply is decoded with its
/// whole text, and what that was decoded as is the result, unchanged; a missing reply, or
/// one that cannot be decoded, fails the call and says why.
pub proof fn law_codec_decodes_what_came_back<D, E, U, Q, V>(
    codec: FfiCodec<D, E, U>,
    request: Q,
    started: DecodedCallStep<DecodeArgs<'_, D, U, Q>, V>,
    reply: CallReply,
    replied: DecodedCallStep<DecodeArgs<'_, D, U, Q>, V>,
    decoded: Result<V, String>,
    ended: DecodedCallStep<DecodeArgs<'_, D, U, Q>, V>,
)
    requires
        call_ensures(
            FfiCodec::<D, E, U>::decode::<Q, V>,
            (&codec, DecodedCallStage::<Q, V>::Start(request)),
            started,
        ),
        call_ensures(
            FfiCodec::<D, E, U>::decode::<Q, V>,
            (&codec, DecodedCallStage::<Q, V>::Returned(reply)),
            replied,
        ),
        call_ensures(
            FfiCodec::<D, E, U>::decode::<Q, V>,
            (&codec, DecodedCallStage::<Q, V>::Decoded(decoded)),
            ended,
        ),
    ensures
        started matches DecodedCallStep::Call { clear_last_error, args } && clear_last_error
            && *args.callback == codec.decode_cb && *args.user_data == codec.user_data
            && args.request == request,
        reply.result matches Some(bytes) ==> (replied matches DecodedCallStep::Decode {
            text,
            release_result,
        } && text@ == lenient_text(bytes@) && release_result),
        reply.result is None ==> (replied matches DecodedCallStep::Finish {
            result: Err(FlowError::Internal(text)),
            release_result,
        } && text@ == (match reply.last_error {
            Some(message) => message@,
            None => "codec decode callback returned null"@,
        }) && !release_result),
        decoded matches Ok(value) ==> (ended matches DecodedCallStep::Finish {
            result: Ok(made),
            release_result,
        } && made == value && !release_result),
        decoded matches Err(error) ==> (ended matches DecodedCallStep::Finish {
            result: Err(FlowError::Internal(text)),
            release_result,
        } && text@ == "codec decode: invalid JSON: "@ + error@ && !release_result),
{
    if let Some(bytes) = reply.result {
        assert(bytes.deep_view() =~= bytes@);
    }
}

/// Encoding calls the encode callback with the whole annotated text and the very original,
/// unless the text could not be written or holds a NUL, which fails the call and says why.
pub proof fn law_codec_encodes_the_annotated_request<D, E, U, Q>(
    codec: FfiCodec<D, E, U>,
    annotated: Result<String, String>,
    original: Q,
    step: EncodeStep<'_, E, U, Q>,
    described: String,
    failed: EncodeStep<'_, E, U, Q>,
)
    requires
        call_ensures(
            FfiCodec::<D, E, U>::encode::<Q>,
            (&codec, EncodeStage::<Q>::Start { annotated, original }),
            step,
        ),
        call_ensures(
            FfiCodec::<D, E, U>::encode::<Q>,
            (&codec, EncodeStage::<Q>::NotCString(described)),
            failed,
        ),
    ensures
        annotated matches Ok(text) ==> {
            &&& !text@.contains('\0') ==> (step matches EncodeStep::Call {
                callback,
                user_data,
                annotated_json,
                original: handed,
            } && *callback == codec.encode_cb && *user_data == codec.user_data && annotated_json@
                == text@ && handed == original)
            &&& text@.contains('\0') ==> (step matches EncodeStep::DescribeNul(held) && held@
                == text@)
        },
        annotated matches Err(error) ==> (step matches EncodeStep::Finish {
            result: Err(FlowError::Internal(text)),
            release_result,
        } && text@ == "codec encode: serialize failed: "@ + error@ && !release_result),
        failed matches EncodeStep::Finish {
            result: Err(FlowError::Internal(text)),
            release_result,
        } && text@ == "codec encode: CString failed: "@ + described@ && !release_result,
{
}

/// What the encode callback returns is the content of the encoded request, as its text
/// reads, beside exactly the original headers. A missing reply, or one that is not JSON,
/// fails the call and says why. A returned C string is released.
pub proof fn law_encoded_reply_is_the_content<D, E, U, Q>(
    codec: FfiCodec<D, E, U>,
    reply: CallReply,
    headers: String,
    step: EncodeStep<'_, E, U, Q>,
)
    requires
        call_ensures(
            FfiCodec::<D, E, U>::encode::<Q>,
            (&codec, EncodeStage::<Q>::Returned { reply, headers }),
            step,
        ),
    ensures
        step is Finish,
        step->release_result == reply.result is Some,
        reply.result is None ==> (step->result matches Err(FlowError::Internal(text)) && text@ == (
        match reply.last_error {
            Some(message) => message@,
            None => "codec encode callback returned null"@,
        })),
        reply.result matches Some(bytes) ==> {
            &&& json_parsed(lenient_text(bytes@)) matches Ok(content) ==> (step->result matches Ok(
                request,
            ) && request.headers@ == headers@ && request.content.deep_view() == content)
            &&& json_parsed(lenient_text(bytes@)) matches Err(error) ==> (step->result matches Err(
                FlowError::Internal(text),
            ) && text@ == "codec encode: invalid result JSON: "@ + error)
        },
{
    if let Some(bytes) = reply.result {
        assert(bytes.deep_view() =~= bytes@);
    }
}

/// A parsed reply is the content of the request, unchanged, beside exactly the given
/// headers.
pub proof fn law_parsed_content_is_kept(
    parsed: Result<Json, String>,
    headers: String,
    request: FlowResult<LlmRequest>,
)
    requires
        call_ensures(request_from_reply, (parsed, headers), request),
    ensures
        parsed matches Ok(content) ==> request == FlowResult::<LlmRequest>::Ok(
            LlmRequest { headers, content },
        ),
        parsed matches Err(error) ==> (request matches Err(FlowError::Internal(text)) && text@
            == "codec encode: invalid result JSON: "@ + error@),
{
}

/// The model of a request keeps its headers and its content.
pub proof fn law_request_model_loses_nothing(request: LlmRequest)
    ensures
        request.deep_view().headers == request.headers@,
        request.deep_view().content == request.content.deep_view(),
{
}

} // verus!
