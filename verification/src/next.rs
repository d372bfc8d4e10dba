//! The continuation of an asynchronous execution intercept: when it may run, how
//! a streamed result becomes one value, and how its result is reported.

use vstd::prelude::*;
use vstd::string::*;
use vstd::utf8::encode_utf8;

use crate::completion::{
    attempted, invoke_async_intercept, received_model, Attempt, CompletionModel, InterceptEvent,
    InterceptStep, NemoRelayAsyncCompletion, Settlement,
};
use crate::error::{
    internal_message, outcome, FlowError, FlowErrorModel, FlowResult, NemoRelayStatus,
};
use crate::json::{c_json, c_str_to_json, json_to_c_string, Json, JsonModel};
use crate::text::{c_string, c_text};

verus! {

/// The execution layer behind an async `next`.
pub enum AsyncNextInner<T, L, S> {
    /// A tool execution.
    Tool(T),
    /// An LLM execution.
    Llm(L),
    /// A streaming LLM execution.
    LlmStream(S),
}

/// Runtime-owned asynchronous `next` continuation for execution intercepts.
pub struct NemoRelayAsyncNext<T, L, S, H> {
    /// The execution layer.
    pub inner: AsyncNextInner<T, L, S>,
    /// The runtime that the continuation is spawned on.
    pub runtime: H,
}

/// How far an invocation of `next` has come.
pub enum NextStage<'a, T, L, S, H, Q> {
    /// The caller's arguments; a null pointer is `None`.
    Start {
        /// The continuation.
        next: Option<&'a NemoRelayAsyncNext<T, L, S, H>>,
        /// The invocation, as JSON text.
        invocation_json: Option<Vec<u8>>,
    },
    /// The attempt to read the invocation as an LLM request for this continuation.
    Decoded {
        /// The continuation.
        next: &'a NemoRelayAsyncNext<T, L, S, H>,
        /// The request, or why the invocation is none.
        request: Result<Q, String>,
    },
}

/// How an invocation of `next` goes on.
pub enum NextStep<Q> {
    /// Nothing is scheduled: report this status.
    Refuse(NemoRelayStatus),
    /// Read the value as an LLM request.
    Decode(Json),
    /// Schedule the tool execution with this value, and report success.
    RunTool(Json),
    /// Schedule the LLM execution with this request, and report success.
    RunLlm(Q),
    /// Schedule the streaming LLM execution with this request, whose chunks are
    /// collected into one array, and report success.
    RunLlmStream(Q),
}

/// A [`NextStep`] with its values taken by their models.
pub enum NextStepModel<Q> {
    /// See [`NextStep::Refuse`].
    Refuse(NemoRelayStatus),
    /// See [`NextStep::Decode`].
    Decode(JsonModel),
    /// See [`NextStep::RunTool`].
    RunTool(JsonModel),
    /// See [`NextStep::RunLlm`].
    RunLlm(Q),
    /// See [`NextStep::RunLlmStream`].
    RunLlmStream(Q),
}

impl<Q> View for NextStep<Q> {
    type V = NextStepModel<Q>;

    open spec fn view(&self) -> NextStepModel<Q> {
        match self {
            NextStep::Refuse(status) => NextStepModel::Refuse(*status),
            NextStep::Decode(value) => NextStepModel::Decode(value.deep_view()),
            NextStep::RunTool(value) => NextStepModel::RunTool(value.deep_view()),
            NextStep::RunLlm(request) => NextStepModel::RunLlm(*request),
            NextStep::RunLlmStream(request) => NextStepModel::RunLlmStream(*request),
        }
    }
}

/// How an invocation of `next` goes on from what its text was read as: nothing where it
/// is not JSON. A tool takes the value as it is; an LLM wants a request read from it.
pub open spec fn invoked<T, L, S, H, Q>(
    next: NemoRelayAsyncNext<T, L, S, H>,
    invocation: Option<JsonModel>,
) -> NextStepModel<Q> {
    match invocation {
        None => NextStepModel::Refuse(NemoRelayStatus::InvalidJson),
        Some(value) => if next.inner is Tool {
            NextStepModel::RunTool(value)
        } else {
            NextStepModel::Decode(value)
        },
    }
}

impl<T, L, S, H> NemoRelayAsyncNext<T, L, S, H> {
    /// Goes on with an invocation from what its text was read as.
    pub fn invoke<Q>(&self, invocation: Option<Json>) -> (step: NextStep<Q>)
        ensures
            step@ == invoked::<T, L, S, H, Q>(*self, invocation.deep_view()),
            invocation matches Some(value) ==> step == if self.inner is Tool {
                NextStep::<Q>::RunTool(value)
            } else {
                NextStep::<Q>::Decode(value)
            },
    {
        match invocation {
            None => NextStep::Refuse(NemoRelayStatus::InvalidJson),
            Some(value) => match &self.inner {
                AsyncNextInner::Tool(_) => NextStep::RunTool(value),
                _ => NextStep::Decode(value),
            },
        }
    }
}

/// How an invocation of `next` goes on; `target_present` tells whether there is
/// something to report the result to. Reading the invocation as a request for a tool is
/// an invalid argument.
pub open spec fn next_step<T, L, S, H, Q>(
    stage: NextStage<'_, T, L, S, H, Q>,
    target_present: bool,
) -> NextStepModel<Q> {
    match stage {
        NextStage::Start { next: None, .. } => NextStepModel::Refuse(NemoRelayStatus::NullPointer),
        NextStage::Start { next: Some(next), invocation_json } => if !target_present {
            NextStepModel::Refuse(NemoRelayStatus::NullPointer)
        } else {
            invoked(*next, c_json(invocation_json.deep_view()))
        },
        NextStage::Decoded { request: Err(_), .. } => NextStepModel::Refuse(
            NemoRelayStatus::InvalidJson,
        ),
        NextStage::Decoded { next, request: Ok(request) } => match next.inner {
            AsyncNextInner::Llm(_) => NextStepModel::RunLlm(request),
            AsyncNextInner::LlmStream(_) => NextStepModel::RunLlmStream(request),
            AsyncNextInner::Tool(_) => NextStepModel::Refuse(NemoRelayStatus::InvalidArg),
        },
    }
}

/// One step of invoking the next execution layer so that it settles a completion.
/// A refusal means that nothing was scheduled and the completion stays with the
/// caller.
pub fn nemo_relay_async_next_invoke<T, L, S, H, Q>(
    stage: NextStage<'_, T, L, S, H, Q>,
    completion_present: bool,
) -> (step: NextStep<Q>)
    ensures
        step@ == next_step(stage, completion_present),
{
    match stage {
        NextStage::Start { next, invocation_json } => match next {
            None => NextStep::Refuse(NemoRelayStatus::NullPointer),
            Some(next) => {
                if !completion_present {
                    return NextStep::Refuse(NemoRelayStatus::NullPointer);
                }
                next.invoke(c_str_to_json(&invocation_json))
            },
        },
        NextStage::Decoded { next, request } => match request {
            Err(_) => NextStep::Refuse(NemoRelayStatus::InvalidJson),
            Ok(request) => match &next.inner {
                AsyncNextInner::Llm(_) => NextStep::RunLlm(request),
                AsyncNextInner::LlmStream(_) => NextStep::RunLlmStream(request),
                AsyncNextInner::Tool(_) => NextStep::Refuse(NemoRelayStatus::InvalidArg),
            },
        },
    }
}

/// One step of invoking the next execution layer so that it reports through a
/// callback. A refusal means that nothing was scheduled and the callback is never
/// called.
pub fn nemo_relay_async_next_invoke_callback<T, L, S, H, Q>(
    stage: NextStage<'_, T, L, S, H, Q>,
) -> (step: NextStep<Q>)
    ensures
        step@ == next_step(stage, true),
{
    nemo_relay_async_next_invoke(stage, true)
}

/// What a tool continuation ends with: its outcome as JSON, where that could be
/// written.
pub open spec fn tool_result(result: FlowResult<Result<Json, String>>) -> Result<
    JsonModel,
    FlowErrorModel,
> {
    match result {
        Ok(Ok(written)) => Ok(written.deep_view()),
        Ok(Err(error)) => Err(FlowErrorModel::Internal(error@)),
        Err(error) => Err(error.deep_view()),
    }
}

/// The value that a tool continuation ends with.
pub fn tool_continuation_result(result: FlowResult<Result<Json, String>>) -> (value: FlowResult<
    Json,
>)
    ensures
        outcome(value) == tool_result(result),
        result matches Ok(Ok(written)) ==> value == FlowResult::<Json>::Ok(written),
        result matches Err(error) ==> value == FlowResult::<Json>::Err(error),
{
    match result {
        Ok(Ok(written)) => Ok(written),
        Ok(Err(error)) => Err(FlowError::Internal(error)),
        Err(error) => Err(error),
    }
}

/// The arguments of a result callback: C strings, `None` for a null pointer.
pub struct NextReport {
    /// The value as JSON.
    pub value_json: Option<String>,
    /// The error message.
    pub error_message: Option<String>,
}

/// A [`NextReport`] over character sequences.
pub struct NextReportModel {
    /// See [`NextReport::value_json`].
    pub value_json: Option<Seq<char>>,
    /// See [`NextReport::error_message`].
    pub error_message: Option<Seq<char>>,
}

impl DeepView for NextReport {
    type V = NextReportModel;

    open spec fn deep_view(&self) -> NextReportModel {
        NextReportModel {
            value_json: self.value_json.deep_view(),
            error_message: self.error_message.deep_view(),
        }
    }
}

/// What a result callback is told: either a value or an error message, never both.
pub open spec fn reported_result(result: Result<JsonModel, FlowErrorModel>) -> NextReportModel {
    match result {
        Ok(value) => NextReportModel {
            value_json: Some(c_text(value.text())),
            error_message: None,
        },
        Err(error) => NextReportModel {
            value_json: None,
            error_message: Some(c_text(error.text())),
        },
    }
}

/// Turns the result of a continuation into the arguments of a result callback.
pub fn next_report(result: FlowResult<Json>) -> (report: NextReport)
    ensures
        report.deep_view() == reported_result(outcome(result)),
{
    match result {
        Ok(value) => NextReport {
            value_json: Some(json_to_c_string(&value)),
            error_message: None,
        },
        Err(error) => NextReport {
            value_json: None,
            error_message: Some(c_string(error.message().as_str())),
        },
    }
}

/// How many chunks of a stream fit into one completion.
pub const ASYNC_STREAM_MAX_CHUNKS: usize = 4096;

/// How many bytes of serialized chunks fit into one completion.
pub const ASYNC_STREAM_MAX_SERIALIZED_BYTES: usize = 16 * 1024 * 1024;

/// The UTF-8 bytes that the given texts take.
pub open spec fn total_bytes(chunks: Seq<Seq<char>>) -> nat
    decreases chunks.len(),
{
    if chunks.len() == 0 {
        0
    } else {
        total_bytes(chunks.drop_last()) + encode_utf8(chunks.last()).len()
    }
}

/// The chunks of a stream that have been collected so far.
pub struct AsyncStreamCollection {
    chunks: Vec<String>,
    serialized_bytes: usize,
}

/// How collecting a stream goes on.
pub enum CollectStep {
    /// Wait for the next chunk.
    Next(AsyncStreamCollection),
    /// The stream has ended, or must not go on.
    Finish(FlowResult<Json>),
}

/// The chunks after one more item: its text is added, unless the item is an
/// error or the limits would be exceeded.
pub open spec fn collected_one(
    chunks: Seq<Seq<char>>,
    item: Result<JsonModel, FlowErrorModel>,
) -> Result<Seq<Seq<char>>, FlowErrorModel> {
    match item {
        Err(error) => Err(error),
        Ok(chunk) => if chunks.len() >= ASYNC_STREAM_MAX_CHUNKS {
            Err(
                FlowErrorModel::Internal(
                    "async stream continuation exceeded the 4096-chunk completion limit"@,
                ),
            )
        } else if total_bytes(chunks.push(chunk.text())) > ASYNC_STREAM_MAX_SERIALIZED_BYTES {
            Err(
                FlowErrorModel::Internal(
                    "async stream continuation exceeded the 16777216-byte completion limit"@,
                ),
            )
        } else {
            Ok(chunks.push(chunk.text()))
        },
    }
}

impl AsyncStreamCollection {
    /// The texts of the chunks. They determine the byte count.
    pub closed spec fn chunks(self) -> Seq<Seq<char>> {
        self.chunks.deep_view()
    }

    /// The byte count agrees with the chunks, and both are within the limits.
    #[verifier::type_invariant]
    spec fn within_limits(self) -> bool {
        &&& self.serialized_bytes == total_bytes(self.chunks.deep_view())
        &&& self.serialized_bytes <= ASYNC_STREAM_MAX_SERIALIZED_BYTES
        &&& self.chunks.deep_view().len() <= ASYNC_STREAM_MAX_CHUNKS
    }

    /// A collection without chunks.
    pub fn new() -> (collection: Self)
        ensures
            collection.chunks() == Seq::<Seq<char>>::empty(),
    {
        AsyncStreamCollection { chunks: Vec::new(), serialized_bytes: 0 }
    }
}

/// One step of collecting a stream into the array that settles a completion;
/// `item` is `None` at the end of the stream. The first error ends the
/// collection, and so does the first chunk beyond a limit.
pub fn collect_async_stream_for_completion(
    collection: AsyncStreamCollection,
    item: Option<FlowResult<Json>>,
) -> (step: CollectStep)
    ensures
        collects(step, collection.chunks(), received_model(item)),
        item matches Some(Err(error)) ==> step == CollectStep::Finish(Err(error)),
{
    proof {
        use_type_invariant(&collection);
    }
    let AsyncStreamCollection { mut chunks, serialized_bytes } = collection;
    let chunk = match item {
        None => return CollectStep::Finish(Ok(Json::Array(chunks))),
        Some(Err(error)) => return CollectStep::Finish(Err(error)),
        Some(Ok(chunk)) => chunk,
    };
    if chunks.len() >= ASYNC_STREAM_MAX_CHUNKS {
        return CollectStep::Finish(
            Err(
                internal_message(
                    "async stream continuation exceeded the 4096-chunk completion limit",
                ),
            ),
        );
    }
    let text = chunk.to_text();
    let ghost before = chunks.deep_view();
    let ghost added = text@;
    let bytes: usize = serialized_bytes.saturating_add(text.as_str().as_bytes().len());
    assert(before.push(added).drop_last() =~= before);
    assert(total_bytes(before.push(added)) == serialized_bytes + encode_utf8(added).len());
    if bytes > ASYNC_STREAM_MAX_SERIALIZED_BYTES {
        return CollectStep::Finish(
            Err(
                internal_message(
                    "async stream continuation exceeded the 16777216-byte completion limit",
                ),
            ),
        );
    }
    chunks.push(text);
    assert(chunks.deep_view() =~= before.push(added));
    CollectStep::Next(AsyncStreamCollection { chunks, serialized_bytes: bytes })
}

/// What has come of a scheduled continuation.
pub enum ContinuationStage {
    /// The tool has run; its outcome was written as JSON, or could not be.
    ToolRan(FlowResult<Result<Json, String>>),
    /// The LLM has run.
    LlmRan(FlowResult<Json>),
    /// The stream of a streaming LLM was opened, or could not be.
    StreamOpened(FlowResult<()>),
    /// The stream gave an item, or `None` at its end.
    StreamItem {
        /// What was collected before.
        collection: AsyncStreamCollection,
        /// The item.
        item: Option<FlowResult<Json>>,
    },
}

/// Whether `step` ends a continuation with the given result.
pub open spec fn ends_with(step: CollectStep, result: Result<JsonModel, FlowErrorModel>) -> bool {
    step matches CollectStep::Finish(made) && outcome(made) == result
}

/// Whether `step` is how a collection with the given chunks goes on after an item.
pub open spec fn collects(
    step: CollectStep,
    chunks: Seq<Seq<char>>,
    item: Option<Result<JsonModel, FlowErrorModel>>,
) -> bool {
    match item {
        None => ends_with(step, Ok(JsonModel::Array(chunks))),
        Some(item) => match collected_one(chunks, item) {
            Ok(longer) => step matches CollectStep::Next(made) && made.chunks() == longer,
            Err(error) => ends_with(step, Err(error)),
        },
    }
}

/// One step of a scheduled continuation, up to the result that settles the completion
/// or is reported. A stream is collected, item by item, into one array.
pub fn run_continuation(stage: ContinuationStage) -> (step: CollectStep)
    ensures
        match stage {
            ContinuationStage::ToolRan(result) => ends_with(step, tool_result(result)) && (
            result matches Ok(Ok(written)) ==> step == CollectStep::Finish(Ok(written))) && (
            result matches Err(error) ==> step == CollectStep::Finish(Err(error))),
            ContinuationStage::LlmRan(result) => ends_with(step, outcome(result)) && step
                == CollectStep::Finish(result),
            ContinuationStage::StreamOpened(Ok(())) => step matches CollectStep::Next(collection)
                && collection.chunks() == Seq::<Seq<char>>::empty(),
            ContinuationStage::StreamOpened(Err(error)) => ends_with(step, Err(error.deep_view()))
                && step == CollectStep::Finish(Err(error)),
            ContinuationStage::StreamItem { collection, item } => collects(
                step,
                collection.chunks(),
                received_model(item),
            ) && (item matches Some(Err(error)) ==> step == CollectStep::Finish(Err(error))),
        },
{
    match stage {
        ContinuationStage::ToolRan(result) => CollectStep::Finish(tool_continuation_result(result)),
        ContinuationStage::LlmRan(result) => CollectStep::Finish(result),
        ContinuationStage::StreamOpened(Ok(())) => CollectStep::Next(AsyncStreamCollection::new()),
        ContinuationStage::StreamOpened(Err(error)) => CollectStep::Finish(Err(error)),
        ContinuationStage::StreamItem { collection, item } => {
            collect_async_stream_for_completion(collection, item)
        },
    }
}

/// The chunks that an array replays as a stream.
pub open spec fn replayed(value: JsonModel) -> Result<Seq<Seq<char>>, FlowErrorModel> {
    match value {
        JsonModel::Array(chunks) => Ok(chunks),
        _ => Err(
            FlowErrorModel::Internal("async stream intercept must resolve to an array"@),
        ),
    }
}

/// The chunks to replay as a stream, each as compact JSON text.
pub fn replay_chunks(value: Json) -> (chunks: FlowResult<Vec<String>>)
    ensures
        outcome(chunks) == replayed(value.deep_view()),
        value matches Json::Array(items) ==> chunks == FlowResult::<Vec<String>>::Ok(items),
{
    match value {
        Json::Array(chunks) => Ok(chunks),
        _ => Err(internal_message("async stream intercept must resolve to an array")),
    }
}

/// The chunks collected from a whole stream.
pub open spec fn collected(items: Seq<Result<JsonModel, FlowErrorModel>>) -> Result<
    Seq<Seq<char>>,
    FlowErrorModel,
>
    decreases items.len(),
{
    if items.len() == 0 {
        Ok(Seq::empty())
    } else {
        match collected(items.drop_last()) {
            Ok(chunks) => collected_one(chunks, items.last()),
            Err(error) => Err(error),
        }
    }
}

/// The texts of the chunks of a stream without errors.
pub open spec fn chunk_texts(items: Seq<Result<JsonModel, FlowErrorModel>>) -> Seq<Seq<char>> {
    items.map_values(|item: Result<JsonModel, FlowErrorModel>| item->Ok_0.text())
}

/// Whether a stream holds no error and stays within the limits.
pub open spec fn fits_completion(items: Seq<Result<JsonModel, FlowErrorModel>>) -> bool {
    &&& forall|i: int| 0 <= i < items.len() ==> (#[trigger] items[i]) is Ok
    &&& items.len() <= ASYNC_STREAM_MAX_CHUNKS
    &&& total_bytes(chunk_texts(items)) <= ASYNC_STREAM_MAX_SERIALIZED_BYTES
}

/// A stream is collected exactly when it holds no error, at most 4096 chunks and
/// at most 16 MiB of serialized chunks; what is collected are its chunks, all of
/// them and in order.
pub proof fn law_stream_is_collected_within_limits(items: Seq<Result<JsonModel, FlowErrorModel>>)
    ensures
        collected(items) is Ok <==> fits_completion(items),
        fits_completion(items) ==> collected(items) == Ok::<Seq<Seq<char>>, FlowErrorModel>(
            chunk_texts(items),
        ),
    decreases items.len(),
{
    if items.len() == 0 {
        assert(chunk_texts(items) =~= Seq::<Seq<char>>::empty());
    } else {
        let earlier = items.drop_last();
        law_stream_is_collected_within_limits(earlier);
        assert(chunk_texts(items).drop_last() =~= chunk_texts(earlier));
        assert(chunk_texts(items) =~= chunk_texts(earlier).push(items.last()->Ok_0.text()));
        if fits_completion(items) {
            assert forall|i: int| 0 <= i < earlier.len() implies (#[trigger] earlier[i]) is Ok by {
                assert(items[i] is Ok);
            }
            assert(items[items.len() - 1] is Ok);
            assert(fits_completion(earlier));
        }
        if collected(items) is Ok {
            assert(fits_completion(earlier));
            assert forall|i: int| 0 <= i < items.len() implies (#[trigger] items[i]) is Ok by {
                if i < earlier.len() {
                    assert(earlier[i] is Ok);
                }
            }
        }
    }
}

/// An intercept that resolves with what its continuation streamed replays the
/// same chunks.
pub proof fn law_collected_stream_is_replayed(items: Seq<Result<JsonModel, FlowErrorModel>>)
    requires
        fits_completion(items),
    ensures
        replayed(JsonModel::Array(collected(items)->Ok_0)) == Ok::<Seq<Seq<char>>, FlowErrorModel>(
            chunk_texts(items),
        ),
{
    law_stream_is_collected_within_limits(items);
}

/// A call of `next` goes on exactly where the continuation and its target are there
/// and the invocation is JSON. A tool is then scheduled at once; an LLM exactly where
/// the invocation also reads as a request, and as a stream exactly where it streams.
/// Everything else is refused with a status other than success.
pub proof fn law_refused_next_is_not_scheduled<T, L, S, H, Q>(
    next: Option<&NemoRelayAsyncNext<T, L, S, H>>,
    invocation_json: Option<Vec<u8>>,
    target_present: bool,
    request: Result<Q, String>,
)
    ensures
        ({
            let start = next_step::<T, L, S, H, Q>(
                NextStage::Start { next, invocation_json },
                target_present,
            );
            let accepted = next is Some && target_present && c_json(
                invocation_json.deep_view(),
            ) is Some;
            &&& start is RunTool <==> accepted && next->0.inner is Tool
            &&& start is Decode <==> accepted && !(next->0.inner is Tool)
            &&& start is Refuse <==> !accepted
            &&& start matches NextStepModel::Refuse(status) ==> status != NemoRelayStatus::Success
            &&& next matches Some(next) ==> {
                let end = next_step::<T, L, S, H, Q>(
                    NextStage::Decoded { next, request },
                    target_present,
                );
                &&& end is RunLlm <==> request is Ok && next.inner is Llm
                &&& end is RunLlmStream <==> request is Ok && next.inner is LlmStream
                &&& end is Refuse <==> request is Err || next.inner is Tool
                &&& end matches NextStepModel::Refuse(status) ==> status
                    != NemoRelayStatus::Success
            }
        }),
{
}

/// What a streaming continuation ends with, when its stream was opened, or could not
/// be, and gave these items up to its end.
pub open spec fn streamed_result(
    opened: Result<(), FlowErrorModel>,
    items: Seq<Result<JsonModel, FlowErrorModel>>,
) -> Result<JsonModel, FlowErrorModel> {
    match opened {
        Ok(()) => match collected(items) {
            Ok(chunks) => Ok(JsonModel::Array(chunks)),
            Err(error) => Err(error),
        },
        Err(error) => Err(error),
    }
}

/// A streaming continuation that is scheduled for a JSON invocation ends with the array
/// of all its chunks, in order, where they fit. That array settles a fresh completion,
/// and is what a result callback is told, without an error message.
pub proof fn law_streamed_continuation_settles_with_every_chunk<T, L, S, H, Q, C>(
    next: &NemoRelayAsyncNext<T, L, S, H>,
    invocation_json: Option<Vec<u8>>,
    request: Q,
    items: Seq<Result<JsonModel, FlowErrorModel>>,
    sender: C,
)
    requires
        next.inner is LlmStream,
        c_json(invocation_json.deep_view()) is Some,
        fits_completion(items),
    ensures
        next_step::<T, L, S, H, Q>(
            NextStage::Start { next: Some(next), invocation_json },
            true,
        ) == NextStepModel::<Q>::Decode(c_json(invocation_json.deep_view())->0),
        next_step::<T, L, S, H, Q>(NextStage::Decoded { next, request: Ok(request) }, true)
            == NextStepModel::<Q>::RunLlmStream(request),
        streamed_result(Ok(()), items) == Ok::<JsonModel, FlowErrorModel>(
            JsonModel::Array(chunk_texts(items)),
        ),
        attempted(
            CompletionModel { sender: Some(sender), cancelled: false },
            Attempt::Continuation(streamed_result(Ok(()), items)),
        ).settled == Some((sender, streamed_result(Ok(()), items))),
        reported_result(streamed_result(Ok(()), items)) == (NextReportModel {
            value_json: Some(c_text(JsonModel::Array(chunk_texts(items)).text())),
            error_message: None,
        }),
{
    law_stream_is_collected_within_limits(items);
}

/// A call of `next` whose continuation and target are there goes on with exactly what its
/// text reads as: a tool runs with that value, whatever its kind, and an LLM has it read
/// as a request. Everything else is refused: a null pointer first, then a text that is
/// not JSON.
pub proof fn law_next_goes_on_with_the_invocation<T, L, S, H, Q>(
    next: Option<&NemoRelayAsyncNext<T, L, S, H>>,
    invocation_json: Option<Vec<u8>>,
    completion_present: bool,
    step: NextStep<Q>,
    callback: NextStep<Q>,
)
    requires
        call_ensures(
            nemo_relay_async_next_invoke::<T, L, S, H, Q>,
            (
                NextStage::Start { next, invocation_json },
                completion_present,
            ),
            step,
        ),
        call_ensures(
            nemo_relay_async_next_invoke_callback::<T, L, S, H, Q>,
            (NextStage::Start { next, invocation_json },),
            callback,
        ),
    ensures
        ({
            let read = c_json(invocation_json.deep_view());
            &&& next is None || !completion_present ==> step == NextStep::<Q>::Refuse(
                NemoRelayStatus::NullPointer,
            )
            &&& next is None ==> callback == NextStep::<Q>::Refuse(NemoRelayStatus::NullPointer)
            &&& next is Some && read is None ==> callback == NextStep::<Q>::Refuse(
                NemoRelayStatus::InvalidJson,
            ) && (completion_present ==> step == NextStep::<Q>::Refuse(
                NemoRelayStatus::InvalidJson,
            ))
            &&& next is Some && read is Some && next->0.inner is Tool ==> {
                &&& callback matches NextStep::RunTool(value) && value.deep_view() == read->0
                &&& completion_present ==> (step matches NextStep::RunTool(value)
                    && value.deep_view() == read->0)
            }
            &&& next is Some && read is Some && !(next->0.inner is Tool) ==> {
                &&& callback matches NextStep::Decode(value) && value.deep_view() == read->0
                &&& completion_present ==> (step matches NextStep::Decode(value)
                    && value.deep_view() == read->0)
            }
        }),
{
}

/// A `next` whose invocation was read goes on with the very value: a tool runs with it, an
/// LLM has it read as a request, and nothing runs where it could not be read.
pub proof fn law_read_invocation_is_kept<T, L, S, H, Q>(
    next: NemoRelayAsyncNext<T, L, S, H>,
    invocation: Option<Json>,
    step: NextStep<Q>,
)
    requires
        call_ensures(
            NemoRelayAsyncNext::<T, L, S, H>::invoke::<Q>,
            (&next, invocation),
            step,
        ),
    ensures
        invocation is None ==> step == NextStep::<Q>::Refuse(NemoRelayStatus::InvalidJson),
        invocation matches Some(value) ==> step == if next.inner is Tool {
            NextStep::<Q>::RunTool(value)
        } else {
            NextStep::<Q>::Decode(value)
        },
{
}

/// What an invocation was read as is the request that the LLM runs with, unchanged, and it
/// streams exactly where the layer behind `next` does. What is no request is refused, and
/// so is a request for a tool.
pub proof fn law_llm_runs_with_the_request_that_was_read<T, L, S, H, Q>(
    next: &NemoRelayAsyncNext<T, L, S, H>,
    request: Result<Q, String>,
    completion_present: bool,
    step: NextStep<Q>,
)
    requires
        call_ensures(
            nemo_relay_async_next_invoke::<T, L, S, H, Q>,
            (NextStage::Decoded { next, request }, completion_present),
            step,
        ) || call_ensures(
            nemo_relay_async_next_invoke_callback::<T, L, S, H, Q>,
            (NextStage::Decoded { next, request },),
            step,
        ),
    ensures
        request is Err ==> step == NextStep::<Q>::Refuse(NemoRelayStatus::InvalidJson),
        request matches Ok(read) ==> {
            &&& next.inner is Llm ==> step == NextStep::<Q>::RunLlm(read)
            &&& next.inner is LlmStream ==> step == NextStep::<Q>::RunLlmStream(read)
            &&& next.inner is Tool ==> step == NextStep::<Q>::Refuse(NemoRelayStatus::InvalidArg)
        },
{
}

/// A continuation ends with the very result of the layer it ran: the outcome of a tool or
/// the response of an LLM as it is, and every error as it is. An outcome that could not be
/// written fails in the words of the writer.
pub proof fn law_continuation_ends_with_its_result(
    tool: FlowResult<Result<Json, String>>,
    made: FlowResult<Json>,
    ran: CollectStep,
    llm: FlowResult<Json>,
    answered: CollectStep,
)
    requires
        call_ensures(tool_continuation_result, (tool,), made),
        call_ensures(run_continuation, (ContinuationStage::ToolRan(tool),), ran),
        call_ensures(run_continuation, (ContinuationStage::LlmRan(llm),), answered),
    ensures
        tool matches Ok(Ok(written)) ==> made == FlowResult::<Json>::Ok(written) && ran
            == CollectStep::Finish(Ok(written)),
        tool matches Err(error) ==> made == FlowResult::<Json>::Err(error) && ran
            == CollectStep::Finish(Err(error)),
        tool matches Ok(Err(error)) ==> {
            &&& made matches Err(FlowError::Internal(text)) && text@ == error@
            &&& ran matches CollectStep::Finish(Err(FlowError::Internal(text))) && text@ == error@
        },
        answered == CollectStep::Finish(llm),
{
}

/// A stream that was opened starts with nothing collected; one that could not be opened
/// ends the continuation with its error.
pub proof fn law_stream_starts_empty(
    opened: FlowResult<()>,
    step: CollectStep,
    fresh: AsyncStreamCollection,
)
    requires
        call_ensures(run_continuation, (ContinuationStage::StreamOpened(opened),), step),
        call_ensures(AsyncStreamCollection::new, (), fresh),
    ensures
        fresh.chunks().len() == 0,
        opened is Ok ==> (step matches CollectStep::Next(collection) && collection.chunks().len()
            == 0),
        opened matches Err(error) ==> step == CollectStep::Finish(Err(error)),
{
}

/// The bytes of some texts are those of all of them together.
pub proof fn law_bytes_add_up(chunks: Seq<Seq<char>>, chunk: Seq<char>)
    ensures
        total_bytes(Seq::empty()) == 0,
        total_bytes(chunks.push(chunk)) == total_bytes(chunks) + encode_utf8(chunk).len(),
{
    assert(chunks.push(chunk).drop_last() =~= chunks);
}

/// While a stream is collected, every chunk is kept with its whole text behind those
/// before it, up to 4096 chunks and 16 MiB. The end of the stream gives the array of what
/// was collected, and an error ends the collection as it is.
pub proof fn law_collecting_keeps_every_chunk(
    collection: AsyncStreamCollection,
    item: Option<FlowResult<Json>>,
    step: CollectStep,
)
    requires
        call_ensures(collect_async_stream_for_completion, (collection, item), step)
            || call_ensures(
            run_continuation,
            (ContinuationStage::StreamItem { collection, item },),
            step,
        ),
    ensures
        item is None ==> (step matches CollectStep::Finish(Ok(Json::Array(items)))
            && items.deep_view() == collection.chunks()),
        item matches Some(Err(error)) ==> step == CollectStep::Finish(Err(error)),
        item matches Some(Ok(chunk)) ==> {
            let longer = collection.chunks().push(chunk.deep_view().text());
            &&& collection.chunks().len() < 4096 && total_bytes(longer) <= 16777216 ==> (
            step matches CollectStep::Next(made) && made.chunks() == longer)
            &&& collection.chunks().len() >= 4096 ==> (step matches CollectStep::Finish(
                Err(FlowError::Internal(text)),
            ) && text@ == "async stream continuation exceeded the 4096-chunk completion limit"@)
            &&& collection.chunks().len() < 4096 && total_bytes(longer) > 16777216 ==> (
            step matches CollectStep::Finish(Err(FlowError::Internal(text))) && text@
                == "async stream continuation exceeded the 16777216-byte completion limit"@)
        },
{
}

/// A result callback is told either the whole text of the value or the error in words:
/// never both, and never neither.
pub proof fn law_result_callback_is_told_the_result(result: FlowResult<Json>, report: NextReport)
    requires
        call_ensures(next_report, (result,), report),
    ensures
        report.value_json is Some <==> result is Ok,
        report.error_message is Some <==> result is Err,
        result matches Ok(value) ==> report.value_json->0@ == c_text(value.deep_view().text()),
        result matches Err(error) ==> report.error_message->0@ == c_text(error.deep_view().text()),
{
}

/// An array replays as a stream of exactly its elements, in order; nothing else replays.
pub proof fn law_array_replays_its_elements(value: Json, chunks: FlowResult<Vec<String>>)
    requires
        call_ensures(replay_chunks, (value,), chunks),
    ensures
        value matches Json::Array(items) ==> chunks == FlowResult::<Vec<String>>::Ok(items),
        !(value is Array) ==> (chunks matches Err(FlowError::Internal(text)) && text@
            == "async stream intercept must resolve to an array"@),
{
}

/// From the layer behind an async `next` to the intercepted call: what a tool or an LLM
/// ends with settles the waiting completion, and the invocation ends with the very same
/// result. A failure of the next layer fails the intercepted call with the same error, and
/// its value is the value of the intercepted call. A result callback is told the same.
pub proof fn law_intercepted_call_ends_like_the_next_layer<S, H>(
    stage: ContinuationStage,
    result: FlowResult<Json>,
    ran: CollectStep,
    completion: &mut NemoRelayAsyncCompletion<S>,
    settlement: Option<Settlement<S>>,
    waiting: NemoRelayAsyncCompletion<S>,
    end: InterceptStep<H>,
    report: NextReport,
)
    requires
        stage == ContinuationStage::LlmRan(result) || (result matches Ok(written) && stage
            == ContinuationStage::ToolRan(Ok(Ok(written)))) || (result matches Err(error) && stage
            == ContinuationStage::ToolRan(Err(error))),
        call_ensures(run_continuation, (stage,), ran),
        ran is Finish,
        old(completion)@.sender is Some,
        call_ensures(
            NemoRelayAsyncCompletion::<S>::settle,
            (completion, ran->Finish_0),
            settlement,
        ),
        settlement is Some,
        call_ensures(
            invoke_async_intercept::<S, H>,
            (&waiting, InterceptEvent::<H>::Received(Some(settlement->0.result))),
            end,
        ),
        call_ensures(next_report, (ran->Finish_0,), report),
    ensures
        settlement->0.sender == old(completion)@.sender->0,
        end matches InterceptStep::Finish { result: made, .. } && made == result,
        result is Err ==> report.value_json is None && (report.error_message matches Some(text)
            && text@ == c_text(result->Err_0.deep_view().text())),
        result is Ok ==> report.error_message is None && (report.value_json matches Some(text)
            && text@ == c_text(result->Ok_0.deep_view().text())),
{
}

} // verus!
