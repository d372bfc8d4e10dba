//! The `next` functions that synchronous C intercepts call to run the next
//! execution layer: how their argument is read, and what they return.

use vstd::prelude::*;
use vstd::utf8::*;

use crate::callable::{ptr_to_json, reply_json, reply_result};
use crate::codec::{LlmRequest, LlmRequestModel};
use crate::error::{outcome, FlowErrorModel, FlowResult};
use crate::json::{json_to_c_string, survives, Json, JsonModel};
use crate::llm::{request_text, single_chunk};
use crate::text::{c_text, lenient_text, lossy_text};

verus! {

/// What a `next` function gives back to the intercept.
pub struct NextReturn {
    /// The C string to return; `None` for a null pointer.
    pub result: Option<String>,
    /// The last error message to set, if any.
    pub last_error: Option<String>,
}

/// A [`NextReturn`] over character sequences.
pub struct NextReturnModel {
    /// See [`NextReturn::result`].
    pub result: Option<Seq<char>>,
    /// See [`NextReturn::last_error`].
    pub last_error: Option<Seq<char>>,
}

impl DeepView for NextReturn {
    type V = NextReturnModel;

    open spec fn deep_view(&self) -> NextReturnModel {
        NextReturnModel {
            result: self.result.deep_view(),
            last_error: self.last_error.deep_view(),
        }
    }
}

/// A result is returned as JSON; an error becomes the last error message and a
/// null pointer.
pub open spec fn next_return(result: Result<JsonModel, FlowErrorModel>) -> NextReturnModel {
    match result {
        Ok(value) => NextReturnModel { result: Some(c_text(value.text())), last_error: None },
        Err(error) => NextReturnModel { result: None, last_error: Some(error.text()) },
    }
}

fn give_back(result: FlowResult<Json>) -> (given: NextReturn)
    ensures
        given.deep_view() == next_return(outcome(result)),
{
    match result {
        Ok(value) => NextReturn { result: Some(json_to_c_string(&value)), last_error: None },
        Err(error) => NextReturn { result: None, last_error: Some(error.message()) },
    }
}

/// How far a call of a tool's `next` has come.
pub enum ToolNextStage {
    /// The intercept called it with a C string; `None` for a null pointer.
    Called(Option<Vec<u8>>),
    /// The next layer has run.
    Ran(FlowResult<Json>),
}

/// How a call of a tool's `next` goes on.
pub enum ToolNextStep {
    /// Run the next layer with these arguments.
    Run(Json),
    /// Return to the intercept.
    Return(NextReturn),
}

/// One step of a tool's `next`. Arguments that are missing or not JSON are null.
pub fn tool_next_trampoline(stage: ToolNextStage) -> (step: ToolNextStep)
    ensures
        match stage {
            ToolNextStage::Called(args_json) => step matches ToolNextStep::Run(args)
                && args.deep_view() == reply_json(args_json.deep_view()) && (args is Null
                || survives(args.deep_view())),
            ToolNextStage::Ran(result) => step matches ToolNextStep::Return(given)
                && given.deep_view() == next_return(outcome(result)),
        },
{
    match stage {
        ToolNextStage::Called(args_json) => ToolNextStep::Run(ptr_to_json(&args_json)),
        ToolNextStage::Ran(result) => ToolNextStep::Return(give_back(result)),
    }
}

/// How far a call of an LLM's `next` has come; `R` is what its layer ends with.
pub enum LlmNextStage<R> {
    /// The intercept called it with a C string; `None` for a null pointer.
    Called(Option<Vec<u8>>),
    /// The attempt to read the text as a request.
    Decoded(Option<LlmRequest>),
    /// The next layer has run.
    Ran(R),
}

/// How a call of an LLM's `next` goes on.
pub enum LlmNextStep {
    /// Read this text as a request.
    Decode(String),
    /// Run the next layer with this request.
    Run(LlmRequest),
    /// Return to the intercept.
    Return(NextReturn),
}

/// The request that stands in for one that is missing or cannot be read: without
/// headers, and with null for its content.
pub open spec fn empty_request() -> LlmRequestModel {
    LlmRequestModel { headers: "{}"@, content: JsonModel::Null }
}

fn no_request() -> (request: LlmRequest)
    ensures
        request.deep_view() == empty_request(),
{
    LlmRequest { headers: "{}".to_owned(), content: Json::Null }
}

/// Whether `step` is how a `next` goes on that was called with `native_json`.
pub open spec fn called(step: LlmNextStep, native_json: Option<Seq<u8>>) -> bool {
    match native_json {
        Some(bytes) => step matches LlmNextStep::Decode(text) && text@ == lenient_text(bytes),
        None => step matches LlmNextStep::Run(request) && request.deep_view() == empty_request(),
    }
}

/// Whether `step` is how a `next` goes on whose argument was read as `request`.
pub open spec fn decoded(step: LlmNextStep, request: Option<LlmRequestModel>) -> bool {
    step matches LlmNextStep::Run(run) && run.deep_view() == match request {
        Some(request) => request,
        None => empty_request(),
    }
}

fn call(native_json: &Option<Vec<u8>>) -> (step: LlmNextStep)
    ensures
        called(step, native_json.deep_view()),
{
    match native_json {
        Some(bytes) => {
            assert(bytes.deep_view() =~= bytes@);
            LlmNextStep::Decode(lossy_text(bytes.as_slice()))
        },
        None => LlmNextStep::Run(no_request()),
    }
}

fn run(request: Option<LlmRequest>) -> (step: LlmNextStep)
    ensures
        decoded(step, request.deep_view()),
        request matches Some(read) ==> step == LlmNextStep::Run(read),
{
    match request {
        Some(request) => LlmNextStep::Run(request),
        None => LlmNextStep::Run(no_request()),
    }
}

/// One step of an LLM's `next`.
pub fn llm_next_trampoline(stage: LlmNextStage<FlowResult<Json>>) -> (step: LlmNextStep)
    ensures
        match stage {
            LlmNextStage::Called(native_json) => called(step, native_json.deep_view()),
            LlmNextStage::Decoded(request) => decoded(step, request.deep_view()) && (
            request matches Some(read) ==> step == LlmNextStep::Run(read)),
            LlmNextStage::Ran(result) => step matches LlmNextStep::Return(given)
                && given.deep_view() == next_return(outcome(result)),
        },
{
    match stage {
        LlmNextStage::Called(native_json) => call(&native_json),
        LlmNextStage::Decoded(request) => run(request),
        LlmNextStage::Ran(result) => LlmNextStep::Return(give_back(result)),
    }
}

/// The one value that a stream gives back: its first item, or null where it has
/// none. A stream that could not be opened gives its error.
pub open spec fn first_item(stream: FlowResult<Option<FlowResult<Json>>>) -> Result<
    JsonModel,
    FlowErrorModel,
> {
    match stream {
        Ok(Some(item)) => outcome(item),
        Ok(None) => Ok(JsonModel::Null),
        Err(error) => Err(error.deep_view()),
    }
}

/// One step of a streaming LLM's `next`. The layer ends with the first item of its
/// stream, `None` where the stream is empty, or with the error of opening it.
pub fn llm_stream_next_trampoline(
    stage: LlmNextStage<FlowResult<Option<FlowResult<Json>>>>,
) -> (step: LlmNextStep)
    ensures
        match stage {
            LlmNextStage::Called(native_json) => called(step, native_json.deep_view()),
            LlmNextStage::Decoded(request) => decoded(step, request.deep_view()) && (
            request matches Some(read) ==> step == LlmNextStep::Run(read)),
            LlmNextStage::Ran(stream) => step matches LlmNextStep::Return(given)
                && given.deep_view() == next_return(first_item(stream)),
        },
{
    match stage {
        LlmNextStage::Called(native_json) => call(&native_json),
        LlmNextStage::Decoded(request) => run(request),
        LlmNextStage::Ran(stream) => LlmNextStep::Return(
            give_back(
                match stream {
                    Ok(Some(item)) => item,
                    Ok(None) => Ok(Json::Null),
                    Err(error) => Err(error),
                },
            ),
        ),
    }
}

/// A `next` function returns a null pointer exactly when it sets the last error
/// message, so an intercept can always tell a failure from a result.
pub proof fn law_next_reports_every_failure(result: Result<JsonModel, FlowErrorModel>)
    ensures
        next_return(result).result is None <==> result is Err,
        next_return(result).last_error is Some <==> result is Err,
{
}

/// The bytes of a C string with the given contents; `None` for a null pointer.
pub open spec fn c_bytes(text: Option<Seq<char>>) -> Option<Seq<u8>> {
    match text {
        Some(text) => Some(encode_utf8(text)),
        None => None,
    }
}

/// What an intercept ends with that hands back the result of the next layer: the same
/// value, or the error of the next layer in words.
pub open spec fn passed_through(result: Result<JsonModel, FlowErrorModel>) -> Result<
    JsonModel,
    FlowErrorModel,
> {
    match result {
        Ok(value) => Ok(value),
        Err(error) => Err(FlowErrorModel::Internal(error.text())),
    }
}

/// An intercept that returns the text of a value, without calling `next`, ends with that
/// value, provided it survives as a C string.
pub proof fn law_intercept_may_answer_itself(
    value: JsonModel,
    last_error: Option<Seq<char>>,
    fallback: Seq<char>,
)
    requires
        survives(value),
    ensures
        reply_result(c_bytes(Some(c_text(value.text()))), last_error, fallback) == Ok::<
            JsonModel,
            FlowErrorModel,
        >(value),
{
    encode_utf8_valid_utf8(c_text(value.text()));
    encode_utf8_decode_utf8(c_text(value.text()));
}

/// The tool layer behind an intercept that hands its arguments on unchanged runs with
/// those arguments, provided they survive as a C string.
pub proof fn law_tool_next_gets_the_arguments(args: JsonModel)
    requires
        survives(args),
    ensures
        reply_json(c_bytes(Some(c_text(args.text())))) == args,
{
    encode_utf8_valid_utf8(c_text(args.text()));
    encode_utf8_decode_utf8(c_text(args.text()));
}

/// An LLM execution intercept that hands its argument on to `next`, and returns what
/// `next` returns, changes nothing: `next` reads exactly the text that the intercept was
/// called with and runs the next layer with the request in it; the value of the next
/// layer comes out as it is, provided it survives as a C string, and its error comes out
/// in words.
pub proof fn law_llm_intercept_passes_through(
    request: Option<JsonModel>,
    read: LlmNextStep,
    in_text: LlmRequestModel,
    ran: LlmNextStep,
    result: Result<JsonModel, FlowErrorModel>,
    last_error: Option<Seq<char>>,
    fallback: Seq<char>,
)
    requires
        called(read, c_bytes(Some(c_text(request_text(request))))),
        decoded(ran, Some(in_text)),
        result matches Ok(value) ==> survives(value),
        next_return(result).last_error is Some ==> last_error == next_return(result).last_error,
    ensures
        read matches LlmNextStep::Decode(text) && text@ == c_text(request_text(request)),
        ran matches LlmNextStep::Run(handed) && handed.deep_view() == in_text,
        reply_result(c_bytes(next_return(result).result), last_error, fallback) == passed_through(
            result,
        ),
{
    let text = c_text(request_text(request));
    encode_utf8_valid_utf8(text);
    encode_utf8_decode_utf8(text);
    if let Ok(value) = result {
        law_intercept_may_answer_itself(value, last_error, fallback);
    }
}

/// A streaming LLM execution intercept that hands its argument on to `next`, and returns
/// what `next` returns, gives a stream of one chunk: the first item of the next layer's
/// stream, or null where that is empty, provided it survives as a C string. An error of
/// the next layer, or of its first item, comes out in words.
pub proof fn law_llm_stream_intercept_passes_through(
    stream: FlowResult<Option<FlowResult<Json>>>,
    last_error: Option<Seq<char>>,
    fallback: Seq<char>,
)
    requires
        first_item(stream) matches Ok(value) ==> survives(value),
        next_return(first_item(stream)).last_error is Some ==> last_error == next_return(
            first_item(stream),
        ).last_error,
    ensures
        single_chunk(
            reply_result(c_bytes(next_return(first_item(stream)).result), last_error, fallback),
        ) == match stream {
            Ok(Some(Ok(item))) => Ok(seq![item.deep_view()]),
            Ok(Some(Err(error))) => Err(FlowErrorModel::Internal(error.deep_view().text())),
            Ok(None) => Ok(seq![JsonModel::Null]),
            Err(error) => Err(FlowErrorModel::Internal(error.deep_view().text())),
        },
{
    if let Ok(value) = first_item(stream) {
        law_intercept_may_answer_itself(value, last_error, fallback);
    }
}

/// Whether a `next` gives back the whole text of this value, and no error message.
pub open spec fn gives_value(given: NextReturn, value: JsonModel) -> bool {
    given.last_error is None && (given.result matches Some(text) && text@ == c_text(value.text()))
}

/// Whether a `next` gives back a null pointer, with this error in words.
pub open spec fn gives_error(given: NextReturn, error: FlowErrorModel) -> bool {
    given.result is None && (given.last_error matches Some(text) && text@ == error.text())
}

/// The layer behind a tool's `next` runs with exactly what the given text reads as, null
/// where it is missing or not JSON, and its result is given back whole: the text of the
/// value, or a null pointer and the error in words.
pub proof fn law_tool_next_gives_back_the_result(
    args_json: Option<Vec<u8>>,
    called: ToolNextStep,
    result: FlowResult<Json>,
    ran: ToolNextStep,
)
    requires
        call_ensures(tool_next_trampoline, (ToolNextStage::Called(args_json),), called),
        call_ensures(tool_next_trampoline, (ToolNextStage::Ran(result),), ran),
    ensures
        called matches ToolNextStep::Run(args) && args.deep_view() == reply_json(
            args_json.deep_view(),
        ),
        result matches Ok(value) ==> (ran matches ToolNextStep::Return(given) && gives_value(
            given,
            value.deep_view(),
        )),
        result matches Err(error) ==> (ran matches ToolNextStep::Return(given) && gives_error(
            given,
            error.deep_view(),
        )),
{
}

/// An LLM's `next`, streaming or not, has the whole given text read as a request, and runs
/// its layer with the very request that was read. Where there is no text, or it is no
/// request, the layer runs with empty headers and null for its content.
pub proof fn law_llm_next_runs_with_the_request(
    native_json: Option<Vec<u8>>,
    called: LlmNextStep,
    request: Option<LlmRequest>,
    ran: LlmNextStep,
)
    requires
        call_ensures(
            llm_next_trampoline,
            (LlmNextStage::<FlowResult<Json>>::Called(native_json),),
            called,
        ) || call_ensures(
            llm_stream_next_trampoline,
            (LlmNextStage::<FlowResult<Option<FlowResult<Json>>>>::Called(native_json),),
            called,
        ),
        call_ensures(
            llm_next_trampoline,
            (LlmNextStage::<FlowResult<Json>>::Decoded(request),),
            ran,
        ) || call_ensures(
            llm_stream_next_trampoline,
            (LlmNextStage::<FlowResult<Option<FlowResult<Json>>>>::Decoded(request),),
            ran,
        ),
    ensures
        native_json matches Some(bytes) ==> (called matches LlmNextStep::Decode(text) && text@
            == lenient_text(bytes@)),
        native_json is None ==> (called matches LlmNextStep::Run(empty) && empty.headers@ == "{}"@
            && empty.content is Null),
        request matches Some(read) ==> ran == LlmNextStep::Run(read),
        request is None ==> (ran matches LlmNextStep::Run(empty) && empty.headers@ == "{}"@
            && empty.content is Null),
{
    if let Some(bytes) = native_json {
        assert(bytes.deep_view() =~= bytes@);
    }
}

/// The result of the layer behind an LLM's `next` is given back whole. A streaming layer
/// gives back the first item of its stream, a value as well as an error, and null where the
/// stream is empty; a stream that could not be opened gives back its error.
pub proof fn law_llm_next_gives_back_the_result(
    result: FlowResult<Json>,
    ran: LlmNextStep,
    stream: FlowResult<Option<FlowResult<Json>>>,
    streamed: LlmNextStep,
)
    requires
        call_ensures(llm_next_trampoline, (LlmNextStage::Ran(result),), ran),
        call_ensures(llm_stream_next_trampoline, (LlmNextStage::Ran(stream),), streamed),
    ensures
        ran is Return && streamed is Return,
        result matches Ok(value) ==> gives_value(ran->Return_0, value.deep_view()),
        result matches Err(error) ==> gives_error(ran->Return_0, error.deep_view()),
        stream matches Ok(Some(Ok(value))) ==> gives_value(streamed->Return_0, value.deep_view()),
        stream matches Ok(Some(Err(error))) ==> gives_error(
            streamed->Return_0,
            error.deep_view(),
        ),
        stream matches Ok(None) ==> gives_value(streamed->Return_0, JsonModel::Null),
        stream matches Err(error) ==> gives_error(streamed->Return_0, error.deep_view()),
{
}

} // verus!
