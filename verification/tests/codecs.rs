//! Codec identity, sanitizers and codecs made of callbacks.

use nemo_relay_callbacks::async_callable::{
    wrap_async_llm_sanitize_request_fn, wrap_async_llm_sanitize_response_fn, AsyncDecodedStage,
    AsyncDecodedStep, AsyncStage, AsyncStep, SanitizeCall,
};
use nemo_relay_callbacks::callable::{CallReply, DecodedCallStage, DecodedCallStep};
use nemo_relay_callbacks::codec::{
    ffi_codec_identity, ffi_codec_identity_json, request_from_reply, wrap_codec_fn,
    BuiltinLlmCodec, EncodeStage, EncodeStep, LlmCodecIdentity, LlmRequest,
    NemoRelayLlmSanitizeCodecKind,
};
use nemo_relay_callbacks::json::Json;
use nemo_relay_callbacks::sanitize::{
    wrap_llm_sanitize_request_fn, wrap_llm_sanitize_response_fn, RequestOwnership, ReturnedString,
    SanitizeRequestStage, SanitizeRequestStep, SanitizeResponseStage, SanitizeResponseStep,
};

fn json(text: &str) -> Json {
    Json::from_text(text).unwrap()
}

fn returned(text: Option<&str>, last_error: Option<&str>) -> CallReply {
    CallReply {
        result: text.map(|text| text.as_bytes().to_vec()),
        last_error: last_error.map(str::to_owned),
    }
}

#[test]
fn native_llm_sanitize_context_preserves_all_codec_identity_states() {
    let cases = [
        (
            LlmCodecIdentity::Absent,
            NemoRelayLlmSanitizeCodecKind::Absent,
            None,
        ),
        (
            LlmCodecIdentity::BuiltIn(BuiltinLlmCodec::OpenAiChat),
            NemoRelayLlmSanitizeCodecKind::BuiltIn,
            Some("openai_chat"),
        ),
        (
            LlmCodecIdentity::BuiltIn(BuiltinLlmCodec::OpenAiResponses),
            NemoRelayLlmSanitizeCodecKind::BuiltIn,
            Some("openai_responses"),
        ),
        (
            LlmCodecIdentity::BuiltIn(BuiltinLlmCodec::AnthropicMessages),
            NemoRelayLlmSanitizeCodecKind::BuiltIn,
            Some("anthropic_messages"),
        ),
        (
            LlmCodecIdentity::Runtime("com.example.chat.v1".into()),
            NemoRelayLlmSanitizeCodecKind::Runtime,
            Some("com.example.chat.v1"),
        ),
        (
            LlmCodecIdentity::Opaque,
            NemoRelayLlmSanitizeCodecKind::Opaque,
            None,
        ),
    ];

    for (codec, expected_kind, expected_id) in cases {
        let context =
            ffi_codec_identity(&codec).expect("native context conversion should succeed");
        assert_eq!(context.kind, expected_kind);
        assert_eq!(context.id, expected_id.map(str::to_owned));
    }
}

#[test]
fn codec_kinds_have_the_numbers_of_the_c_header() {
    let kinds = [
        NemoRelayLlmSanitizeCodecKind::Absent,
        NemoRelayLlmSanitizeCodecKind::BuiltIn,
        NemoRelayLlmSanitizeCodecKind::Runtime,
        NemoRelayLlmSanitizeCodecKind::Opaque,
    ];
    let codes: Vec<u32> = kinds.iter().map(|kind| kind.code()).collect();
    assert_eq!(codes, vec![0, 1, 2, 3]);
}

#[test]
fn codec_identity_is_told_as_json() {
    let text = |identity| ffi_codec_identity_json(&identity).unwrap().to_text();
    assert_eq!(
        text(LlmCodecIdentity::Absent),
        r#"{"codec_id":null,"codec_kind":0}"#
    );
    assert_eq!(
        text(LlmCodecIdentity::BuiltIn(BuiltinLlmCodec::OpenAiChat)),
        r#"{"codec_id":"openai_chat","codec_kind":1}"#
    );
    assert_eq!(
        text(LlmCodecIdentity::Runtime("a\"b".into())),
        r#"{"codec_id":"a\"b","codec_kind":2}"#
    );
    assert_eq!(
        text(LlmCodecIdentity::Opaque),
        r#"{"codec_id":null,"codec_kind":3}"#
    );
}

#[test]
fn runtime_codec_id_must_be_free_of_nul() {
    let identity = LlmCodecIdentity::Runtime("a\0b".into());
    let message = "invalid argument: runtime codec ID contains an embedded NUL";
    assert_eq!(
        ffi_codec_identity_json(&identity).unwrap_err().message(),
        message
    );

    let step = wrap_llm_sanitize_request_fn(SanitizeRequestStage::<u8, u8>::Start {
        identity,
        codec: None,
        request: 1,
    });
    match step {
        SanitizeRequestStep::Fail(failure) => {
            assert_eq!(failure.last_error, message);
            assert_eq!(failure.error.message(), message);
        }
        _ => panic!("the sanitizer must not be called"),
    }
    let step = wrap_llm_sanitize_response_fn(SanitizeResponseStage::<u8>::Start {
        identity: LlmCodecIdentity::Runtime("a\0b".into()),
        codec: None,
        response: Json::Null,
    });
    assert!(matches!(step, SanitizeResponseStep::Fail(failure) if failure.last_error == message));
}

#[test]
fn request_sanitizer_is_told_the_codec() {
    let step = wrap_llm_sanitize_request_fn(SanitizeRequestStage::Start {
        identity: LlmCodecIdentity::Runtime("mine".into()),
        codec: Some('c'),
        request: 5u8,
    });
    match step {
        SanitizeRequestStep::Call { request, context } => {
            assert_eq!(request, 5);
            assert_eq!(context.codec_kind, NemoRelayLlmSanitizeCodecKind::Runtime);
            assert_eq!(context.codec_id, Some("mine".into()));
            assert_eq!(context.codec, Some('c'));
        }
        _ => panic!("the sanitizer must be called"),
    }
}

#[test]
fn sanitized_requests_have_one_owner() {
    let ownership = |request_address, result_address| {
        match wrap_llm_sanitize_request_fn(SanitizeRequestStage::<u8, u8>::Returned {
            request_address,
            result_address,
        }) {
            SanitizeRequestStep::Finish(ownership) => ownership,
            _ => panic!("the sanitizer has returned"),
        }
    };
    assert_eq!(
        ownership(16, 0),
        RequestOwnership { take: None, release: Some(16) }
    );
    assert_eq!(
        ownership(16, 16),
        RequestOwnership { take: Some(16), release: None }
    );
    assert_eq!(
        ownership(16, 32),
        RequestOwnership { take: Some(32), release: Some(16) }
    );
}

#[test]
fn sanitized_strings_are_freed_once() {
    let finish = |result: Option<(usize, &[u8])>| {
        match wrap_llm_sanitize_response_fn(SanitizeResponseStage::<u8>::Returned {
            response: json("[1]"),
            response_address: 16,
            result: result.map(|(address, bytes)| ReturnedString {
                address,
                bytes: bytes.to_vec(),
            }),
        }) {
            SanitizeResponseStep::Finish { result, release } => (result, release),
            _ => panic!("the sanitizer has returned"),
        }
    };
    assert_eq!(finish(None), (None, vec![16]));
    assert_eq!(finish(Some((16, b"[1]"))), (Some(json("[1]")), vec![16]));
    assert_eq!(finish(Some((32, b"{}"))), (Some(json("{}")), vec![16, 32]));
    assert_eq!(finish(Some((32, b"oops"))), (None, vec![16, 32]));
    assert_eq!(finish(Some((32, b"\"\xff\""))), (None, vec![16, 32]));
}

#[test]
fn returned_response_passes_through() {
    let step = wrap_llm_sanitize_response_fn(SanitizeResponseStage::Start {
        identity: LlmCodecIdentity::BuiltIn(BuiltinLlmCodec::AnthropicMessages),
        codec: Some(1u8),
        response: Json::String("say \"hi\"\0".into()),
    });
    let (response, response_json) = match step {
        SanitizeResponseStep::Call { response, response_json, context } => {
            assert_eq!(context.codec_kind, NemoRelayLlmSanitizeCodecKind::BuiltIn);
            assert_eq!(context.codec_id, Some("anthropic_messages".into()));
            assert_eq!(context.codec, Some(1));
            (response, response_json)
        }
        _ => panic!("the sanitizer must be called"),
    };
    assert_eq!(response_json, r#""say \"hi\"\u0000""#);
    let step = wrap_llm_sanitize_response_fn(SanitizeResponseStage::<u8>::Returned {
        response,
        response_address: 16,
        result: Some(ReturnedString { address: 16, bytes: response_json.into_bytes() }),
    });
    assert!(matches!(
        step,
        SanitizeResponseStep::Finish { result: Some(Json::String(text)), release }
            if text == "say \"hi\"\0" && release == [16]
    ));
}

#[test]
fn handed_back_response_passes_through() {
    let deep = "[".repeat(200) + &"]".repeat(200);
    let responses = [
        json(r#"{"text":"hi","score":0.1,"ids":[1,-2,1e300]}"#),
        json("[null,true,\"\\u0000\"]"),
        Json::Null,
        Json::Array(vec![deep]),
    ];
    let nested_too_deep = responses.len() - 1;
    for (index, response) in responses.into_iter().enumerate() {
        let text = response.to_text();
        let step = wrap_llm_sanitize_response_fn(SanitizeResponseStage::<u8>::Start {
            identity: LlmCodecIdentity::Absent,
            codec: None,
            response,
        });
        let (response, response_json) = match step {
            SanitizeResponseStep::Call { response, response_json, .. } => (response, response_json),
            _ => panic!("the sanitizer must be called"),
        };
        assert_eq!(response_json, text);
        let finish = |response, address| {
            match wrap_llm_sanitize_response_fn(SanitizeResponseStage::<u8>::Returned {
                response,
                response_address: 16,
                result: Some(ReturnedString { address, bytes: text.clone().into_bytes() }),
            }) {
                SanitizeResponseStep::Finish { result, .. } => result,
                _ => panic!("the sanitizer has returned"),
            }
        };
        let passed = finish(response, 16).expect("the same string passes through");
        assert_eq!(passed.to_text(), text);
        let copied = finish(passed, 32).map(|copied| copied.to_text());
        assert_eq!(copied, if index < nested_too_deep { Some(text) } else { None });
    }
}

#[test]
fn async_sanitizers_get_the_codec_in_their_envelope() {
    let call = |payload: &str| SanitizeCall {
        identity: LlmCodecIdentity::Runtime("mine".into()),
        payload: json(payload),
    };
    let step = wrap_async_llm_sanitize_request_fn(AsyncDecodedStage::<_, u8>::Start(call("[1]")));
    assert!(matches!(step, AsyncDecodedStep::Invoke(envelope) if envelope.to_text()
        == r#"{"context":{"codec_id":"mine","codec_kind":2},"request":[1]}"#));
    let step = wrap_async_llm_sanitize_response_fn(AsyncStage::Start(call("[1]")));
    assert!(matches!(step, AsyncStep::Invoke(envelope) if envelope.to_text()
        == r#"{"context":{"codec_id":"mine","codec_kind":2},"response":[1]}"#));
    let refused = SanitizeCall {
        identity: LlmCodecIdentity::Runtime("\0".into()),
        payload: Json::Null,
    };
    let step = wrap_async_llm_sanitize_response_fn(AsyncStage::Start(refused));
    assert!(matches!(step, AsyncStep::Finish(Err(error)) if error.message()
        == "invalid argument: runtime codec ID contains an embedded NUL"));
}

#[test]
fn async_sanitizers_omit_null() {
    let settled = |value: &str| AsyncDecodedStage::<SanitizeCall, u8>::Settled(Ok(json(value)));
    assert!(matches!(
        wrap_async_llm_sanitize_request_fn(settled("null")),
        AsyncDecodedStep::Finish(Ok(None))
    ));
    assert!(matches!(
        wrap_async_llm_sanitize_request_fn(settled("{}")),
        AsyncDecodedStep::Decode(Json::Other(_))
    ));
    assert!(matches!(
        wrap_async_llm_sanitize_request_fn(AsyncDecodedStage::Decoded(Ok(7u8))),
        AsyncDecodedStep::Finish(Ok(Some(7)))
    ));
    let step = wrap_async_llm_sanitize_request_fn(AsyncDecodedStage::<_, u8>::Decoded(Err(
        "missing field `headers`".into(),
    )));
    assert!(matches!(step, AsyncDecodedStep::Finish(Err(error))
        if error.message() == "internal error: missing field `headers`"));

    assert!(matches!(
        wrap_async_llm_sanitize_response_fn(AsyncStage::Settled(Ok(Json::Null))),
        AsyncStep::Finish(Ok(None))
    ));
    assert!(matches!(
        wrap_async_llm_sanitize_response_fn(AsyncStage::Settled(Ok(json("[]")))),
        AsyncStep::Finish(Ok(Some(Json::Array(_))))
    ));
}

#[test]
fn codec_decodes_through_its_callback() {
    let codec = wrap_codec_fn('d', 'e', 9u8);
    match codec.decode(DecodedCallStage::<u16, u32>::Start(4)) {
        DecodedCallStep::Call { clear_last_error, args } => {
            assert!(clear_last_error);
            assert_eq!((*args.callback, *args.user_data, args.request), ('d', 9, 4));
        }
        _ => panic!("the callback must be called"),
    }
    let step = codec.decode(DecodedCallStage::<u16, u32>::Returned(CallReply {
        result: Some(vec![b'{', 0xff]),
        last_error: None,
    }));
    assert!(matches!(step, DecodedCallStep::Decode { text, release_result: true } if text == "{\u{fffd}"));
    let message = |stage| match codec.decode(stage) {
        DecodedCallStep::Finish { result: Err(error), .. } => error.message(),
        _ => panic!("decoding must fail"),
    };
    assert_eq!(
        message(DecodedCallStage::<u16, u32>::Returned(returned(None, None))),
        "internal error: codec decode callback returned null"
    );
    assert_eq!(
        message(DecodedCallStage::Returned(returned(None, Some("bad model")))),
        "internal error: bad model"
    );
    assert_eq!(
        message(DecodedCallStage::Decoded(Err("EOF".into()))),
        "internal error: codec decode: invalid JSON: EOF"
    );
    assert!(matches!(
        codec.decode(DecodedCallStage::<u16, u32>::Decoded(Ok(8))),
        DecodedCallStep::Finish { result: Ok(8), .. }
    ));
}

#[test]
fn codec_encodes_content_beside_the_original_headers() {
    let codec = wrap_codec_fn('d', 'e', 9u8);
    match codec.encode(EncodeStage::Start {
        annotated: Ok("{\"a\":1}".into()),
        original: 4u16,
    }) {
        EncodeStep::Call { callback, user_data, annotated_json, original } => {
            assert_eq!((*callback, *user_data, original), ('e', 9, 4));
            assert_eq!(annotated_json, "{\"a\":1}");
        }
        _ => panic!("the callback must be called"),
    }
    let finish = |stage: EncodeStage<u16>| match codec.encode(stage) {
        EncodeStep::Finish { result, .. } => result,
        _ => panic!("encoding is over"),
    };
    let back = |text, last_error| EncodeStage::Returned {
        reply: returned(text, last_error),
        headers: "{\"h\":1}".into(),
    };
    assert_eq!(
        finish(back(Some("{\"model\": \"x\"}"), None)).unwrap(),
        LlmRequest { headers: "{\"h\":1}".into(), content: json("{\"model\":\"x\"}") }
    );
    assert_eq!(
        finish(back(None, None)).unwrap_err().message(),
        "internal error: codec encode callback returned null"
    );
    assert_eq!(
        finish(back(None, Some("bad"))).unwrap_err().message(),
        "internal error: bad"
    );
    assert!(finish(back(Some("{"), None))
        .unwrap_err()
        .message()
        .starts_with("internal error: codec encode: invalid result JSON: EOF"));
    let start = |annotated| EncodeStage::Start { annotated, original: 4u16 };
    assert_eq!(
        finish(start(Err("x".into()))).unwrap_err().message(),
        "internal error: codec encode: serialize failed: x"
    );
    assert!(matches!(
        codec.encode(start(Ok("a\0b".into()))),
        EncodeStep::DescribeNul(text) if text == "a\0b"
    ));
    assert_eq!(
        finish(EncodeStage::NotCString("x".into())).unwrap_err().message(),
        "internal error: codec encode: CString failed: x"
    );
}

#[test]
fn parsed_reply_is_the_content_of_a_request() {
    assert_eq!(
        request_from_reply(Ok(Json::Other("7".into())), "{\"h\":1}".into()).unwrap(),
        LlmRequest { headers: "{\"h\":1}".into(), content: Json::Other("7".into()) }
    );
    assert_eq!(
        request_from_reply(Err("no JSON".into()), "{}".into()).unwrap_err().message(),
        "internal error: codec encode: invalid result JSON: no JSON"
    );
}
