//! One-shot completions: how an asynchronous C callback settles the invocation
//! it was given, and how the invocation waits for it.

use vstd::prelude::*;

use crate::error::{
    internal, internal_error, internal_message, outcome, FlowError, FlowErrorModel, FlowResult,
    NemoRelayStatus,
};
use crate::json::{c_json, c_str_to_json, json_to_c_string, survives, Json, JsonModel};
use crate::text::{c_text, lenient_text, lossy_text};

verus! {

/// Indicates whether an async callback settled its completion before returning.
#[derive(Debug, Clone, Copy, PartialEq, Eq, Structural)]
pub enum NemoRelayAsyncCallbackState {
    /// The callback called a resolve or reject function before returning.
    Complete,
    /// The callback retained the completion and will settle it later.
    Pending,
}

/// One-shot completion passed to asynchronous C callbacks: the sender that takes
/// the one result, and whether the invocation has stopped waiting.
pub struct NemoRelayAsyncCompletion<S> {
    sender: Option<S>,
    cancelled: bool,
}

/// A [`NemoRelayAsyncCompletion`] as its specification sees it.
pub struct CompletionModel<S> {
    /// The sender, until a result is taken.
    pub sender: Option<S>,
    /// Whether the invocation has stopped waiting.
    pub cancelled: bool,
}

impl<S> View for NemoRelayAsyncCompletion<S> {
    type V = CompletionModel<S>;

    closed spec fn view(&self) -> CompletionModel<S> {
        CompletionModel { sender: self.sender, cancelled: self.cancelled }
    }
}

/// A result on its way through the sender it belongs to.
pub struct Settlement<S> {
    /// The sender.
    pub sender: S,
    /// The result to send.
    pub result: FlowResult<Json>,
}

/// The answer to an attempt to settle a completion.
pub struct SettleReport<S> {
    /// The status for the caller.
    pub status: NemoRelayStatus,
    /// What has to be sent, if the attempt succeeded.
    pub settlement: Option<Settlement<S>>,
}

/// What can happen to a completion.
pub enum Attempt {
    /// The callback resolves it with JSON; `None` where the text was not JSON.
    Resolve(Option<JsonModel>),
    /// The callback rejects it with a message.
    Reject(Seq<char>),
    /// A continuation that was asked to settle it has ended.
    Continuation(Result<JsonModel, FlowErrorModel>),
    /// The invocation stops waiting.
    Cancel,
}

/// A completion after an attempt, with the status and the settlement.
pub struct AttemptOutcome<S> {
    /// The completion.
    pub completion: CompletionModel<S>,
    /// The status for the caller.
    pub status: NemoRelayStatus,
    /// The sender and its result, if the attempt settled the completion.
    pub settled: Option<(S, Result<JsonModel, FlowErrorModel>)>,
}

/// A completion that refuses an attempt stays as it is.
pub open spec fn refused<S>(
    completion: CompletionModel<S>,
    status: NemoRelayStatus,
) -> AttemptOutcome<S> {
    AttemptOutcome { completion, status, settled: None }
}

/// A completion settles if nobody has settled it before.
pub open spec fn settled<S>(
    completion: CompletionModel<S>,
    result: Result<JsonModel, FlowErrorModel>,
    otherwise: NemoRelayStatus,
) -> AttemptOutcome<S> {
    match completion.sender {
        Some(sender) => AttemptOutcome {
            completion: CompletionModel { sender: None, ..completion },
            status: NemoRelayStatus::Success,
            settled: Some((sender, result)),
        },
        None => refused(completion, otherwise),
    }
}

/// What an attempt does to a completion.
pub open spec fn attempted<S>(completion: CompletionModel<S>, attempt: Attempt) -> AttemptOutcome<
    S,
> {
    match attempt {
        Attempt::Resolve(value) => if completion.cancelled {
            refused(completion, NemoRelayStatus::InvalidArg)
        } else {
            match value {
                Some(value) => settled(completion, Ok(value), NemoRelayStatus::InvalidArg),
                None => refused(completion, NemoRelayStatus::InvalidJson),
            }
        },
        Attempt::Reject(message) => if completion.cancelled {
            refused(completion, NemoRelayStatus::InvalidArg)
        } else {
            settled(
                completion,
                Err(FlowErrorModel::Internal(message)),
                NemoRelayStatus::InvalidArg,
            )
        },
        Attempt::Continuation(result) => settled(completion, result, NemoRelayStatus::Success),
        Attempt::Cancel => refused(
            CompletionModel { cancelled: true, ..completion },
            NemoRelayStatus::Success,
        ),
    }
}

impl<S> SettleReport<S> {
    /// Whether the report says what `outcome` says.
    pub open spec fn reports(self, outcome: AttemptOutcome<S>) -> bool {
        &&& self.status == outcome.status
        &&& settlement_model(self.settlement) == outcome.settled
    }
}

/// A settlement with its result taken by its model.
pub open spec fn settlement_model<S>(settlement: Option<Settlement<S>>) -> Option<
    (S, Result<JsonModel, FlowErrorModel>),
> {
    match settlement {
        Some(settlement) => Some((settlement.sender, outcome(settlement.result))),
        None => None,
    }
}

/// The message of a rejection: the given text, or a standard one.
pub open spec fn reject_message(message: Option<Seq<u8>>) -> Seq<char> {
    match message {
        Some(bytes) => lenient_text(bytes),
        None => "async C callback rejected"@,
    }
}

impl<S> NemoRelayAsyncCompletion<S> {
    /// A completion that nobody has settled and that is waited for.
    pub fn new(sender: S) -> (completion: Self)
        ensures
            completion@ == (CompletionModel { sender: Some(sender), cancelled: false }),
    {
        NemoRelayAsyncCompletion { sender: Some(sender), cancelled: false }
    }

    /// Stops waiting for the completion before a result has come.
    pub fn cancel(&mut self)
        ensures
            final(self)@ == attempted(old(self)@, Attempt::Cancel).completion,
    {
        self.cancelled = true;
    }

    /// Whether a result has been taken.
    pub fn is_settled(&self) -> (settled: bool)
        ensures
            settled == self@.sender is None,
    {
        self.sender.is_none()
    }

    /// Settles the completion with the result of a continuation, unless it was
    /// settled before.
    pub fn settle(&mut self, result: FlowResult<Json>) -> (settlement: Option<Settlement<S>>)
        ensures
            final(self)@ == attempted(
                old(self)@,
                Attempt::Continuation(outcome(result)),
            ).completion,
            settlement_model(settlement) == attempted(
                old(self)@,
                Attempt::Continuation(outcome(result)),
            ).settled,
            match old(self)@.sender {
                Some(sender) => settlement == Some(Settlement { sender, result }),
                None => settlement is None,
            },
    {
        match self.sender.take() {
            Some(sender) => Some(Settlement { sender, result }),
            None => None,
        }
    }

    fn take(&mut self, result: FlowResult<Json>) -> (report: SettleReport<S>)
        ensures
            final(self)@ == settled(
                old(self)@,
                outcome(result),
                NemoRelayStatus::InvalidArg,
            ).completion,
            report.reports(settled(old(self)@, outcome(result), NemoRelayStatus::InvalidArg)),
            report.settlement matches Some(made) ==> made.result == result,
    {
        match self.sender.take() {
            Some(sender) => SettleReport {
                status: NemoRelayStatus::Success,
                settlement: Some(Settlement { sender, result }),
            },
            None => SettleReport { status: NemoRelayStatus::InvalidArg, settlement: None },
        }
    }

    /// Resolves the completion with a value; `None` where the text that was given for it
    /// is not JSON.
    pub fn resolve(&mut self, value: Option<Json>) -> (report: SettleReport<S>)
        ensures
            final(self)@ == attempted(
                old(self)@,
                Attempt::Resolve(value.deep_view()),
            ).completion,
            report.reports(attempted(old(self)@, Attempt::Resolve(value.deep_view()))),
            report.settlement matches Some(made) ==> made.result == FlowResult::<Json>::Ok(
                value->0,
            ),
    {
        if self.cancelled {
            return refuse(NemoRelayStatus::InvalidArg);
        }
        match value {
            None => refuse(NemoRelayStatus::InvalidJson),
            Some(value) => self.take(Ok(value)),
        }
    }

    /// Rejects the completion with an error message.
    pub fn reject(&mut self, message: String) -> (report: SettleReport<S>)
        ensures
            final(self)@ == attempted(old(self)@, Attempt::Reject(message@)).completion,
            report.reports(attempted(old(self)@, Attempt::Reject(message@))),
            report.settlement matches Some(made) ==> made.result == FlowResult::<Json>::Err(
                FlowError::Internal(message),
            ),
    {
        if self.cancelled {
            return refuse(NemoRelayStatus::InvalidArg);
        }
        self.take(Err(FlowError::Internal(message)))
    }
}

fn refuse<S>(status: NemoRelayStatus) -> (report: SettleReport<S>)
    ensures
        report.status == status,
        report.settlement is None,
{
    SettleReport { status, settlement: None }
}

/// Resolves an async C callback with JSON text. A null completion is reported;
/// so are, in this order, a cancelled invocation, text that is not JSON, and a
/// completion that was settled before. The value it settles with can be handed on as a
/// C string and read again.
pub fn nemo_relay_async_completion_resolve_json<S>(
    completion: Option<&mut NemoRelayAsyncCompletion<S>>,
    value_json: &Option<Vec<u8>>,
) -> (report: SettleReport<S>)
    ensures
        match completion {
            Some(completion) => {
                let after = attempted(
                    completion@,
                    Attempt::Resolve(c_json(value_json.deep_view())),
                );
                final(completion)@ == after.completion && report.reports(after)
            },
            None => report.status == NemoRelayStatus::NullPointer && report.settlement is None,
        },
        report.settlement matches Some(settlement) ==> settlement.result matches Ok(value)
            && value.deep_view().well_formed() && survives(value.deep_view()),
{
    match completion {
        None => refuse(NemoRelayStatus::NullPointer),
        Some(completion) => completion.resolve(c_str_to_json(value_json)),
    }
}

/// Rejects an async C callback with an error message. A null completion is
/// reported; so are a cancelled invocation and a completion that was settled
/// before.
pub fn nemo_relay_async_completion_reject<S>(
    completion: Option<&mut NemoRelayAsyncCompletion<S>>,
    message: &Option<Vec<u8>>,
) -> (report: SettleReport<S>)
    ensures
        match completion {
            Some(completion) => {
                let after = attempted(
                    completion@,
                    Attempt::Reject(reject_message(message.deep_view())),
                );
                final(completion)@ == after.completion && report.reports(after)
            },
            None => report.status == NemoRelayStatus::NullPointer && report.settlement is None,
        },
{
    match completion {
        None => refuse(NemoRelayStatus::NullPointer),
        Some(completion) => {
            let message = match message {
                Some(bytes) => {
                    assert(bytes.deep_view() =~= bytes@);
                    lossy_text(bytes.as_slice())
                },
                None => "async C callback rejected".to_owned(),
            };
            completion.reject(message)
        },
    }
}

/// Whether an async completion's invocation has been cancelled. A null completion
/// counts as cancelled.
pub fn nemo_relay_async_completion_is_cancelled<S>(
    completion: Option<&NemoRelayAsyncCompletion<S>>,
) -> (cancelled: bool)
    ensures
        cancelled == match completion {
            Some(completion) => completion@.cancelled,
            None => true,
        },
{
    match completion {
        Some(completion) => completion.cancelled,
        None => true,
    }
}

/// What an invocation of a completion-based callback learns.
pub enum InvocationEvent {
    /// The invocation begins, with this envelope.
    Start {
        /// The envelope.
        invocation: Json,
    },
    /// The callback returned.
    CallbackReturned(NemoRelayAsyncCallbackState),
    /// The wait for the completion ended; `None` where every holder let go of it
    /// without settling.
    Received(Option<FlowResult<Json>>),
}

/// How an invocation of a completion-based callback goes on. Where
/// `release_references` is set, the references that were handed to the callback have
/// to be released on its behalf.
pub enum InvocationStep {
    /// Call the callback.
    Call {
        /// The envelope, as the contents of a C string.
        invocation_json: String,
    },
    /// Wait for the completion.
    Wait {
        /// Whether the callback's references are released now.
        release_references: bool,
    },
    /// The invocation is over.
    Finish {
        /// Whether the callback's references are released now.
        release_references: bool,
        /// Its result.
        result: FlowResult<Json>,
    },
}

/// What an invocation of an execution intercept learns.
pub enum InterceptEvent<H> {
    /// The invocation begins.
    Start {
        /// The runtime for its continuation, or why there is none.
        runtime: Result<H, String>,
        /// The envelope.
        invocation: Json,
    },
    /// The callback returned.
    CallbackReturned(NemoRelayAsyncCallbackState),
    /// The wait for the completion ended; `None` where every holder let go of it
    /// without settling.
    Received(Option<FlowResult<Json>>),
}

/// How an invocation of an execution intercept goes on. Where `release_references` is
/// set, the references that were handed to the callback have to be released on its
/// behalf.
pub enum InterceptStep<H> {
    /// Call the callback.
    Call {
        /// The runtime that the continuation is spawned on.
        runtime: H,
        /// The envelope, as the contents of a C string.
        invocation_json: String,
    },
    /// Wait for the completion.
    Wait {
        /// Whether the callback's references are released now.
        release_references: bool,
    },
    /// The invocation is over.
    Finish {
        /// Whether the callback's references are released now.
        release_references: bool,
        /// Its result.
        result: FlowResult<Json>,
    },
}

/// What an invocation learns, with its values taken by their models. The callback of
/// an execution intercept needs a runtime of type `H`; any other needs nothing.
pub enum InvocationEventModel<H> {
    /// The invocation begins.
    Start(Result<H, Seq<char>>, JsonModel),
    /// The callback returned.
    CallbackReturned(NemoRelayAsyncCallbackState),
    /// The wait for the completion ended.
    Received(Option<Result<JsonModel, FlowErrorModel>>),
}

/// How an invocation goes on, with its values taken by their models.
pub enum InvocationStepModel<H> {
    /// Call the callback.
    Call(H, Seq<char>),
    /// Wait for the completion.
    Wait(bool),
    /// The invocation is over.
    Finish(bool, Result<JsonModel, FlowErrorModel>),
}

/// A received result taken by its model.
pub open spec fn received_model(received: Option<FlowResult<Json>>) -> Option<
    Result<JsonModel, FlowErrorModel>,
> {
    match received {
        Some(result) => Some(outcome(result)),
        None => None,
    }
}

impl View for InvocationEvent {
    type V = InvocationEventModel<()>;

    open spec fn view(&self) -> InvocationEventModel<()> {
        match self {
            InvocationEvent::Start { invocation } => InvocationEventModel::Start(
                Ok(()),
                invocation.deep_view(),
            ),
            InvocationEvent::CallbackReturned(state) => InvocationEventModel::CallbackReturned(
                *state,
            ),
            InvocationEvent::Received(received) => InvocationEventModel::Received(
                received_model(*received),
            ),
        }
    }
}

impl<H> View for InterceptEvent<H> {
    type V = InvocationEventModel<H>;

    open spec fn view(&self) -> InvocationEventModel<H> {
        match self {
            InterceptEvent::Start { runtime: Ok(handle), invocation } => {
                InvocationEventModel::Start(Ok(*handle), invocation.deep_view())
            },
            InterceptEvent::Start { runtime: Err(error), invocation } => {
                InvocationEventModel::Start(Err(error@), invocation.deep_view())
            },
            InterceptEvent::CallbackReturned(state) => InvocationEventModel::CallbackReturned(
                *state,
            ),
            InterceptEvent::Received(received) => InvocationEventModel::Received(
                received_model(*received),
            ),
        }
    }
}

impl View for InvocationStep {
    type V = InvocationStepModel<()>;

    open spec fn view(&self) -> InvocationStepModel<()> {
        match self {
            InvocationStep::Call { invocation_json } => InvocationStepModel::Call(
                (),
                invocation_json@,
            ),
            InvocationStep::Wait { release_references } => InvocationStepModel::Wait(
                *release_references,
            ),
            InvocationStep::Finish { release_references, result } => InvocationStepModel::Finish(
                *release_references,
                outcome(*result),
            ),
        }
    }
}

impl<H> View for InterceptStep<H> {
    type V = InvocationStepModel<H>;

    open spec fn view(&self) -> InvocationStepModel<H> {
        match self {
            InterceptStep::Call { runtime, invocation_json } => InvocationStepModel::Call(
                *runtime,
                invocation_json@,
            ),
            InterceptStep::Wait { release_references } => InvocationStepModel::Wait(
                *release_references,
            ),
            InterceptStep::Finish { release_references, result } => InvocationStepModel::Finish(
                *release_references,
                outcome(*result),
            ),
        }
    }
}

/// How an invocation goes on; it leaves the completion as it is. The callback is
/// called at the start, with the text of the envelope, unless its runtime is missing.
/// One that says it is complete gives up its references, and must have settled; one
/// that is pending keeps them.
pub open spec fn invocation_step<S, H>(
    completion: CompletionModel<S>,
    event: InvocationEventModel<H>,
    unsettled: Seq<char>,
    dropped: Seq<char>,
) -> InvocationStepModel<H> {
    match event {
        InvocationEventModel::Start(Ok(runtime), invocation) => InvocationStepModel::Call(
            runtime,
            c_text(invocation.text()),
        ),
        InvocationEventModel::Start(Err(error), _) => InvocationStepModel::Finish(
            false,
            Err(internal("async C intercept requires a Tokio runtime: "@, error)),
        ),
        InvocationEventModel::CallbackReturned(NemoRelayAsyncCallbackState::Complete) => {
            if completion.sender is Some {
                InvocationStepModel::Finish(true, Err(FlowErrorModel::Internal(unsettled)))
            } else {
                InvocationStepModel::Wait(true)
            }
        },
        InvocationEventModel::CallbackReturned(NemoRelayAsyncCallbackState::Pending) => {
            InvocationStepModel::Wait(false)
        },
        InvocationEventModel::Received(received) => InvocationStepModel::Finish(
            false,
            match received {
                Some(result) => result,
                None => Err(FlowErrorModel::Internal(dropped)),
            },
        ),
    }
}

fn invoke<S, H>(
    completion: &NemoRelayAsyncCompletion<S>,
    event: InterceptEvent<H>,
    unsettled: &str,
    dropped: &str,
) -> (step: InterceptStep<H>)
    ensures
        step@ == invocation_step(completion@, event@, unsettled@, dropped@),
        event matches InterceptEvent::Received(Some(result)) ==> (step matches
            InterceptStep::Finish { result: made, .. } && made == result),
{
    match event {
        InterceptEvent::Start { runtime, invocation } => match runtime {
            Ok(runtime) => InterceptStep::Call {
                runtime,
                invocation_json: json_to_c_string(&invocation),
            },
            Err(error) => InterceptStep::Finish {
                release_references: false,
                result: Err(
                    internal_error("async C intercept requires a Tokio runtime: ", error.as_str()),
                ),
            },
        },
        InterceptEvent::CallbackReturned(NemoRelayAsyncCallbackState::Complete) => {
            if completion.is_settled() {
                InterceptStep::Wait { release_references: true }
            } else {
                InterceptStep::Finish {
                    release_references: true,
                    result: Err(internal_message(unsettled)),
                }
            }
        },
        InterceptEvent::CallbackReturned(NemoRelayAsyncCallbackState::Pending) => {
            InterceptStep::Wait { release_references: false }
        },
        InterceptEvent::Received(received) => InterceptStep::Finish {
            release_references: false,
            result: match received {
                Some(result) => result,
                None => Err(internal_message(dropped)),
            },
        },
    }
}

/// One step of the invocation of a completion-based callback: it is called at the
/// start with the text of the envelope, and the invocation ends with what settled the
/// completion.
pub fn invoke_async_json<S>(
    completion: &NemoRelayAsyncCompletion<S>,
    event: InvocationEvent,
) -> (step: InvocationStep)
    ensures
        step@ == invocation_step(
            completion@,
            event@,
            "async C callback returned Complete without settling"@,
            "async C callback dropped without settling"@,
        ),
        event matches InvocationEvent::Received(Some(result)) ==> (step matches
            InvocationStep::Finish { result: made, .. } && made == result),
{
    let event = match event {
        InvocationEvent::Start { invocation } => InterceptEvent::Start {
            runtime: Ok(()),
            invocation,
        },
        InvocationEvent::CallbackReturned(state) => InterceptEvent::CallbackReturned(state),
        InvocationEvent::Received(received) => InterceptEvent::Received(received),
    };
    match invoke(
        completion,
        event,
        "async C callback returned Complete without settling",
        "async C callback dropped without settling",
    ) {
        InterceptStep::Call { runtime: _, invocation_json } => InvocationStep::Call {
            invocation_json,
        },
        InterceptStep::Wait { release_references } => InvocationStep::Wait { release_references },
        InterceptStep::Finish { release_references, result } => InvocationStep::Finish {
            release_references,
            result,
        },
    }
}

/// One step of the invocation of a completion-based execution intercept. Without a
/// runtime the callback is not called at all; otherwise it is called at the start with
/// the text of the envelope, and the invocation ends with what settled the completion.
pub fn invoke_async_intercept<S, H>(
    completion: &NemoRelayAsyncCompletion<S>,
    event: InterceptEvent<H>,
) -> (step: InterceptStep<H>)
    ensures
        step@ == invocation_step(
            completion@,
            event@,
            "async C intercept returned Complete without settling"@,
            "async C intercept dropped without settling"@,
        ),
        event matches InterceptEvent::Received(Some(result)) ==> (step matches
            InterceptStep::Finish { result: made, .. } && made == result),
{
    invoke(
        completion,
        event,
        "async C intercept returned Complete without settling",
        "async C intercept dropped without settling",
    )
}

/// A completion after a sequence of attempts, with every settlement on the way.
pub open spec fn attempted_all<S>(completion: CompletionModel<S>, attempts: Seq<Attempt>) -> (
    CompletionModel<S>,
    Seq<(S, Result<JsonModel, FlowErrorModel>)>,
)
    decreases attempts.len(),
{
    if attempts.len() == 0 {
        (completion, Seq::empty())
    } else {
        let (before, settlements) = attempted_all(completion, attempts.drop_last());
        let after = attempted(before, attempts.last());
        (
            after.completion,
            match after.settled {
                Some(settlement) => settlements.push(settlement),
                None => settlements,
            },
        )
    }
}

/// A completion settles at most once, through its own sender, whatever is tried
/// on it and in whatever order; and it is settled exactly when its sender is gone.
pub proof fn law_completion_settles_at_most_once<S>(
    completion: CompletionModel<S>,
    attempts: Seq<Attempt>,
)
    requires
        completion.sender is Some,
    ensures
        attempted_all(completion, attempts).1.len() <= 1,
        attempted_all(completion, attempts).0.sender is None <==> attempted_all(
            completion,
            attempts,
        ).1.len() == 1,
        attempted_all(completion, attempts).1.len() == 1 ==> attempted_all(
            completion,
            attempts,
        ).1[0].0 == completion.sender->0,
        attempted_all(completion, attempts).1.len() == 0 ==> attempted_all(
            completion,
            attempts,
        ).0.sender == completion.sender,
    decreases attempts.len(),
{
    if attempts.len() > 0 {
        law_completion_settles_at_most_once(completion, attempts.drop_last());
    }
}

/// Cancelling is for good: whatever is tried later, a cancelled completion stays
/// cancelled, and the callback can neither resolve nor reject it any more.
pub proof fn law_cancelled_completion_refuses_the_callback<S>(
    completion: CompletionModel<S>,
    attempts: Seq<Attempt>,
    value: Option<JsonModel>,
    message: Seq<char>,
)
    requires
        completion.cancelled,
    ensures
        ({
            let later = attempted_all(completion, attempts).0;
            &&& later.cancelled
            &&& attempted(later, Attempt::Resolve(value)) == refused(
                later,
                NemoRelayStatus::InvalidArg,
            )
            &&& attempted(later, Attempt::Reject(message)) == refused(
                later,
                NemoRelayStatus::InvalidArg,
            )
        }),
    decreases attempts.len(),
{
    if attempts.len() > 0 {
        law_cancelled_completion_refuses_the_callback(
            completion,
            attempts.drop_last(),
            value,
            message,
        );
    }
}

/// A status other than success never comes with a settlement, and leaves the
/// completion as it was.
pub proof fn law_refused_attempt_changes_nothing<S>(
    completion: CompletionModel<S>,
    attempt: Attempt,
)
    requires
        attempted(completion, attempt).status != NemoRelayStatus::Success,
    ensures
        attempted(completion, attempt).settled is None,
        attempted(completion, attempt).completion == completion,
{
}

/// Once a completion is settled, the callback can neither resolve it with a value
/// nor reject it: the second settlement is an invalid argument.
pub proof fn law_second_settlement_is_refused<S>(
    completion: CompletionModel<S>,
    first: Attempt,
    value: JsonModel,
    message: Seq<char>,
)
    requires
        attempted(completion, first).settled is Some,
    ensures
        attempted(attempted(completion, first).completion, Attempt::Resolve(Some(value))).status
            == NemoRelayStatus::InvalidArg,
        attempted(attempted(completion, first).completion, Attempt::Reject(message)).status
            == NemoRelayStatus::InvalidArg,
{
}

/// A callback that settles and says so is waited for; one that says so without
/// settling fails the invocation. Either way its references are released for it, and
/// a pending callback keeps its own. Neither the call nor the end of the wait releases
/// anything.
pub proof fn law_callback_references_are_released_once<S, H>(
    completion: CompletionModel<S>,
    runtime: Result<H, Seq<char>>,
    invocation: JsonModel,
    state: NemoRelayAsyncCallbackState,
    received: Option<Result<JsonModel, FlowErrorModel>>,
    unsettled: Seq<char>,
    dropped: Seq<char>,
)
    ensures
        ({
            let start = invocation_step::<S, H>(
                completion,
                InvocationEventModel::Start(runtime, invocation),
                unsettled,
                dropped,
            );
            let returned = invocation_step::<S, H>(
                completion,
                InvocationEventModel::CallbackReturned(state),
                unsettled,
                dropped,
            );
            let end = invocation_step::<S, H>(
                completion,
                InvocationEventModel::Received(received),
                unsettled,
                dropped,
            );
            &&& start matches InvocationStepModel::Finish(released, _) ==> !released
            &&& state == NemoRelayAsyncCallbackState::Pending ==> returned
                == InvocationStepModel::<H>::Wait(false)
            &&& state == NemoRelayAsyncCallbackState::Complete ==> returned == (
            if completion.sender is None {
                InvocationStepModel::<H>::Wait(true)
            } else {
                InvocationStepModel::<H>::Finish(true, Err(FlowErrorModel::Internal(unsettled)))
            })
            &&& end matches InvocationStepModel::Finish(released, _) && !released
        }),
{
}

/// The attempts that a callback makes before and after it returns.
pub struct CallbackRun {
    /// What is tried before the callback returns.
    pub before: Seq<Attempt>,
    /// What the callback returns.
    pub state: NemoRelayAsyncCallbackState,
    /// What is tried while the invocation waits.
    pub after: Seq<Attempt>,
}

impl CallbackRun {
    /// Everything that is tried.
    pub open spec fn attempts(self) -> Seq<Attempt> {
        self.before + self.after
    }
}

/// The result of an invocation that is awaited to its end: the error of a missing
/// runtime; or the error of a callback that says it is complete and has settled
/// nothing; or what settled the completion; or, where nothing ever did, the error of a
/// dropped completion.
pub open spec fn invocation_result<S, H>(
    sender: S,
    runtime: Result<H, Seq<char>>,
    run: CallbackRun,
    unsettled: Seq<char>,
    dropped: Seq<char>,
) -> Result<JsonModel, FlowErrorModel> {
    let fresh = CompletionModel { sender: Some(sender), cancelled: false };
    let settlements = attempted_all(fresh, run.attempts()).1;
    if runtime is Err {
        Err(internal("async C intercept requires a Tokio runtime: "@, runtime->Err_0))
    } else if run.state == NemoRelayAsyncCallbackState::Complete && attempted_all(
        fresh,
        run.before,
    ).1.len() == 0 {
        Err(FlowErrorModel::Internal(unsettled))
    } else if settlements.len() > 0 {
        settlements[0].1
    } else {
        Err(FlowErrorModel::Internal(dropped))
    }
}

/// What the invocation receives at the end of its wait: the first settlement.
pub open spec fn received_settlement<S>(
    settlements: Seq<(S, Result<JsonModel, FlowErrorModel>)>,
) -> Option<Result<JsonModel, FlowErrorModel>> {
    if settlements.len() > 0 {
        Some(settlements[0].1)
    } else {
        None
    }
}

proof fn lemma_attempts_go_on<S>(
    completion: CompletionModel<S>,
    before: Seq<Attempt>,
    after: Seq<Attempt>,
)
    ensures
        ({
            let first = attempted_all(completion, before);
            let second = attempted_all(first.0, after);
            attempted_all(completion, before + after) == (second.0, first.1 + second.1)
        }),
    decreases after.len(),
{
    let first = attempted_all(completion, before);
    if after.len() == 0 {
        assert(before + after =~= before);
        assert(first.1 + attempted_all(first.0, after).1 =~= first.1);
    } else {
        lemma_attempts_go_on(completion, before, after.drop_last());
        assert((before + after).drop_last() =~= before + after.drop_last());
        assert((before + after).last() == after.last());
        let earlier = attempted_all(first.0, after.drop_last());
        let last = attempted(earlier.0, after.last());
        if last.settled is Some {
            assert((first.1 + earlier.1).push(last.settled->0) =~= first.1 + earlier.1.push(
                last.settled->0,
            ));
        }
    }
}

/// An invocation from its call to its result. The callback is called exactly at the
/// start, with the text of the envelope, and never without a runtime. The invocation
/// ends with the error of an unsettled callback, or waits and ends with what settled
/// the completion first. It is then cancelled only if something cancelled it, not by
/// having come to its end.
pub proof fn law_invocation_from_call_to_result<S, H>(
    sender: S,
    runtime: Result<H, Seq<char>>,
    invocation: JsonModel,
    run: CallbackRun,
    unsettled: Seq<char>,
    dropped: Seq<char>,
)
    ensures
        ({
            let fresh = CompletionModel { sender: Some(sender), cancelled: false };
            let at_return = attempted_all(fresh, run.before).0;
            let at_end = attempted_all(fresh, run.attempts());
            let start = invocation_step::<S, H>(
                fresh,
                InvocationEventModel::Start(runtime, invocation),
                unsettled,
                dropped,
            );
            let returned = invocation_step::<S, H>(
                at_return,
                InvocationEventModel::CallbackReturned(run.state),
                unsettled,
                dropped,
            );
            let end = invocation_step::<S, H>(
                at_end.0,
                InvocationEventModel::Received(received_settlement(at_end.1)),
                unsettled,
                dropped,
            );
            let result = invocation_result(sender, runtime, run, unsettled, dropped);
            &&& start == match runtime {
                Ok(handle) => InvocationStepModel::Call(handle, c_text(invocation.text())),
                Err(_) => InvocationStepModel::Finish(false, result),
            }
            &&& !(returned is Call) && !(end is Call)
            &&& runtime is Ok && returned is Finish ==> returned == InvocationStepModel::<
                H,
            >::Finish(true, result)
            &&& runtime is Ok && returned is Wait ==> end == InvocationStepModel::<H>::Finish(
                false,
                result,
            )
            &&& at_end.1.len() <= 1
            &&& (forall|i: int|
                0 <= i < run.attempts().len() ==> !((#[trigger] run.attempts()[i]) is Cancel))
                ==> !at_end.0.cancelled
        }),
{
    let fresh = CompletionModel { sender: Some(sender), cancelled: false };
    law_completion_settles_at_most_once(fresh, run.before);
    law_completion_settles_at_most_once(fresh, run.attempts());
    lemma_attempts_go_on(fresh, run.before, run.after);
    if forall|i: int|
        0 <= i < run.attempts().len() ==> !((#[trigger] run.attempts()[i]) is Cancel) {
        law_only_cancelling_cancels(fresh, run.attempts());
    }
}

/// Only cancelling makes a completion cancelled: settling it, or being awaited to the
/// end, does not.
pub proof fn law_only_cancelling_cancels<S>(completion: CompletionModel<S>, attempts: Seq<Attempt>)
    requires
        !completion.cancelled,
        forall|i: int| 0 <= i < attempts.len() ==> !((#[trigger] attempts[i]) is Cancel),
    ensures
        !attempted_all(completion, attempts).0.cancelled,
    decreases attempts.len(),
{
    if attempts.len() > 0 {
        let earlier = attempts.drop_last();
        assert forall|i: int|
            0 <= i < earlier.len() implies !((#[trigger] earlier[i]) is Cancel) by {
            assert(earlier[i] == attempts[i]);
        }
        law_only_cancelling_cancels(completion, earlier);
        assert(!(attempts[attempts.len() - 1] is Cancel));
    }
}

/// A completion that settles does so with exactly what it was given: a continuation's
/// result as it is, be it a value or an error; the resolved value; or the message of the
/// rejection as an internal error. It settles through its own sender, which is then gone.
/// A callback is refused where the invocation was cancelled, where its text is not JSON,
/// and where the completion was settled before.
pub proof fn law_completion_settles_with_what_it_was_given<S>(
    completion: CompletionModel<S>,
    result: Result<JsonModel, FlowErrorModel>,
    value: JsonModel,
    message: Seq<char>,
)
    ensures
        ({
            let continued = attempted(completion, Attempt::Continuation(result));
            let resolved = attempted(completion, Attempt::Resolve(Some(value)));
            let unreadable = attempted(completion, Attempt::Resolve(None));
            let rejected = attempted(completion, Attempt::Reject(message));
            let cancelled = attempted(completion, Attempt::Cancel);
            &&& completion.sender matches Some(sender) ==> {
                &&& continued.settled == Some((sender, result))
                &&& !completion.cancelled ==> resolved.settled == Some(
                    (sender, Ok::<JsonModel, FlowErrorModel>(value)),
                ) && rejected.settled == Some(
                    (sender, Err::<JsonModel, FlowErrorModel>(FlowErrorModel::Internal(message))),
                )
                &&& !completion.cancelled ==> resolved.status == NemoRelayStatus::Success
                    && rejected.status == NemoRelayStatus::Success
            }
            &&& continued.status == NemoRelayStatus::Success
            &&& continued.completion == (CompletionModel { sender: None, ..completion })
            &&& completion.sender is None ==> continued.settled is None
            &&& completion.sender is None || completion.cancelled ==> resolved.settled is None
                && rejected.settled is None && resolved.status == NemoRelayStatus::InvalidArg
                && rejected.status == NemoRelayStatus::InvalidArg && resolved.completion
                == completion && rejected.completion == completion
            &&& !completion.cancelled ==> resolved.completion.sender is None
                && rejected.completion.sender is None && !resolved.completion.cancelled
                && !rejected.completion.cancelled
            &&& unreadable.settled is None && unreadable.completion == completion
            &&& unreadable.status == if completion.cancelled {
                NemoRelayStatus::InvalidArg
            } else {
                NemoRelayStatus::InvalidJson
            }
            &&& cancelled.settled is None && cancelled.completion.cancelled
            &&& cancelled.completion.sender == completion.sender
        }),
{
}

/// A new completion holds its sender and is neither settled nor cancelled; a completion
/// counts as settled exactly where its sender is gone, and as cancelled exactly where it
/// was cancelled, or where there is none.
pub proof fn law_fresh_completion_waits<S>(
    sender: S,
    completion: NemoRelayAsyncCompletion<S>,
    any: NemoRelayAsyncCompletion<S>,
    any_settled: bool,
    any_cancelled: bool,
    none_cancelled: bool,
)
    requires
        call_ensures(NemoRelayAsyncCompletion::<S>::new, (sender,), completion),
        call_ensures(NemoRelayAsyncCompletion::<S>::is_settled, (&any,), any_settled),
        call_ensures(nemo_relay_async_completion_is_cancelled::<S>, (Some(&any),), any_cancelled),
        call_ensures(nemo_relay_async_completion_is_cancelled::<S>, (None,), none_cancelled),
    ensures
        completion@.sender == Some(sender) && !completion@.cancelled,
        any_settled <==> any@.sender is None,
        any_cancelled <==> any@.cancelled,
        none_cancelled,
{
}

/// A continuation that has ended settles the completion with its very result: an error
/// stays that error and a value stays that value. Where the completion was settled before,
/// nothing is sent. Whether the invocation was cancelled makes no difference.
pub proof fn law_continuation_settles_with_its_result<S>(
    completion: &mut NemoRelayAsyncCompletion<S>,
    result: FlowResult<Json>,
    settlement: Option<Settlement<S>>,
)
    requires
        call_ensures(NemoRelayAsyncCompletion::<S>::settle, (completion, result), settlement),
    ensures
        old(completion)@.sender matches Some(sender) ==> (settlement matches Some(made)
            && made.sender == sender && made.result == result),
        old(completion)@.sender is None ==> settlement is None,
        final(completion)@.sender is None,
        final(completion)@.cancelled == old(completion)@.cancelled,
{
}

/// Resolving settles a completion with the very value, whatever its kind, exactly where
/// it was neither cancelled nor settled; everything else is refused, says why, and leaves
/// the completion as it was.
pub proof fn law_resolving_settles_with_the_value<S>(
    completion: &mut NemoRelayAsyncCompletion<S>,
    value: Option<Json>,
    report: SettleReport<S>,
)
    requires
        call_ensures(NemoRelayAsyncCompletion::<S>::resolve, (completion, value), report),
    ensures
        ({
            let before = old(completion)@;
            let accepted = !before.cancelled && before.sender is Some && value is Some;
            &&& report.settlement is Some <==> accepted
            &&& report.status == NemoRelayStatus::Success <==> accepted
            &&& report.settlement matches Some(made) ==> made.sender == before.sender->0
                && made.result == FlowResult::<Json>::Ok(value->0)
            &&& accepted ==> final(completion)@.sender is None
            &&& !accepted ==> final(completion)@ == before
            &&& final(completion)@.cancelled == before.cancelled
            &&& before.cancelled ==> report.status == NemoRelayStatus::InvalidArg
            &&& !before.cancelled && value is None ==> report.status
                == NemoRelayStatus::InvalidJson
            &&& !before.cancelled && value is Some && before.sender is None ==> report.status
                == NemoRelayStatus::InvalidArg
        }),
{
}

/// Rejecting settles a completion with an internal error that says exactly the message,
/// where it was neither cancelled nor settled; everything else is refused and leaves the
/// completion as it was.
pub proof fn law_rejecting_settles_with_the_message<S>(
    completion: &mut NemoRelayAsyncCompletion<S>,
    message: String,
    report: SettleReport<S>,
)
    requires
        call_ensures(NemoRelayAsyncCompletion::<S>::reject, (completion, message), report),
    ensures
        ({
            let before = old(completion)@;
            let accepted = !before.cancelled && before.sender is Some;
            &&& report.settlement is Some <==> accepted
            &&& report.status == if accepted {
                NemoRelayStatus::Success
            } else {
                NemoRelayStatus::InvalidArg
            }
            &&& report.settlement matches Some(made) ==> {
                &&& made.sender == before.sender->0
                &&& made.result matches Err(FlowError::Internal(text)) && text@ == message@
            }
            &&& accepted ==> final(completion)@.sender is None
            &&& !accepted ==> final(completion)@ == before
            &&& final(completion)@.cancelled == before.cancelled
        }),
{
}

/// A completion that is cancelled counts as cancelled and keeps its sender, through which
/// a continuation can still settle it.
pub proof fn law_cancelling_keeps_the_sender<S>(completion: &mut NemoRelayAsyncCompletion<S>)
    requires
        call_ensures(NemoRelayAsyncCompletion::<S>::cancel, (completion,), ()),
    ensures
        final(completion)@.cancelled,
        final(completion)@.sender == old(completion)@.sender,
{
}

/// Resolving over the C boundary settles with what the text reads as, and rejecting with
/// the text of the message, or a standard one where there is none. A null completion is
/// reported and settles nothing.
pub proof fn law_c_callback_settles_with_what_it_hands_over<S>(
    resolved: &mut NemoRelayAsyncCompletion<S>,
    value_json: Option<Vec<u8>>,
    resolve: SettleReport<S>,
    rejected: &mut NemoRelayAsyncCompletion<S>,
    message: Option<Vec<u8>>,
    reject: SettleReport<S>,
    no_resolve: SettleReport<S>,
    no_reject: SettleReport<S>,
)
    requires
        call_ensures(
            nemo_relay_async_completion_resolve_json::<S>,
            (Some(resolved), &value_json),
            resolve,
        ),
        call_ensures(
            nemo_relay_async_completion_reject::<S>,
            (Some(rejected), &message),
            reject,
        ),
        call_ensures(
            nemo_relay_async_completion_resolve_json::<S>,
            (None, &value_json),
            no_resolve,
        ),
        call_ensures(nemo_relay_async_completion_reject::<S>, (None, &message), no_reject),
    ensures
        ({
            let before = old(resolved)@;
            let read = c_json(value_json.deep_view());
            let accepted = !before.cancelled && before.sender is Some && read is Some;
            &&& resolve.settlement is Some <==> accepted
            &&& resolve.settlement matches Some(made) ==> {
                &&& made.sender == before.sender->0
                &&& made.result matches Ok(value) && value.deep_view() == read->0
            }
            &&& resolve.status == if accepted {
                NemoRelayStatus::Success
            } else if !before.cancelled && read is None {
                NemoRelayStatus::InvalidJson
            } else {
                NemoRelayStatus::InvalidArg
            }
            &&& final(resolved)@ == if accepted {
                CompletionModel { sender: None, ..before }
            } else {
                before
            }
        }),
        ({
            let before = old(rejected)@;
            let accepted = !before.cancelled && before.sender is Some;
            &&& reject.settlement is Some <==> accepted
            &&& reject.settlement matches Some(made) ==> {
                &&& made.sender == before.sender->0
                &&& made.result matches Err(FlowError::Internal(text)) && text@ == (match message {
                    Some(bytes) => lenient_text(bytes@),
                    None => "async C callback rejected"@,
                })
            }
            &&& reject.status == if accepted {
                NemoRelayStatus::Success
            } else {
                NemoRelayStatus::InvalidArg
            }
            &&& final(rejected)@ == if accepted {
                CompletionModel { sender: None, ..before }
            } else {
                before
            }
        }),
        no_resolve.status == NemoRelayStatus::NullPointer && no_resolve.settlement is None,
        no_reject.status == NemoRelayStatus::NullPointer && no_reject.settlement is None,
{
    if let Some(bytes) = message {
        assert(bytes.deep_view() =~= bytes@);
    }
}

/// A callback is invoked with the whole text of its envelope; an intercept without a
/// runtime is not invoked at all, and fails in the words of the runtime.
pub proof fn law_invocation_hands_over_the_envelope<S, H>(
    completion: NemoRelayAsyncCompletion<S>,
    invocation: Json,
    step: InvocationStep,
    runtime: Result<H, String>,
    intercept: InterceptStep<H>,
)
    requires
        call_ensures(
            invoke_async_json::<S>,
            (&completion, InvocationEvent::Start { invocation }),
            step,
        ),
        call_ensures(
            invoke_async_intercept::<S, H>,
            (&completion, InterceptEvent::Start { runtime, invocation }),
            intercept,
        ),
    ensures
        step matches InvocationStep::Call { invocation_json } && invocation_json@ == c_text(
            invocation.deep_view().text(),
        ),
        runtime matches Ok(handle) ==> (intercept matches InterceptStep::Call {
            runtime: handed,
            invocation_json,
        } && handed == handle && invocation_json@ == c_text(invocation.deep_view().text())),
        runtime matches Err(error) ==> (intercept matches InterceptStep::Finish {
            release_references,
            result: Err(FlowError::Internal(text)),
        } && !release_references && text@ == "async C intercept requires a Tokio runtime: "@
            + error@),
{
}

/// A callback that is pending is waited for and keeps its references. One that says it is
/// complete gives them up, and is waited for where it has settled; where it has not, the
/// invocation fails.
pub proof fn law_complete_callback_must_have_settled<S, H>(
    completion: NemoRelayAsyncCompletion<S>,
    state: NemoRelayAsyncCallbackState,
    step: InvocationStep,
    intercept: InterceptStep<H>,
)
    requires
        call_ensures(
            invoke_async_json::<S>,
            (&completion, InvocationEvent::CallbackReturned(state)),
            step,
        ),
        call_ensures(
            invoke_async_intercept::<S, H>,
            (&completion, InterceptEvent::<H>::CallbackReturned(state)),
            intercept,
        ),
    ensures
        ({
            let complete = state == NemoRelayAsyncCallbackState::Complete;
            &&& !complete || completion@.sender is None ==> {
                &&& step matches InvocationStep::Wait { release_references } && release_references
                    == complete
                &&& intercept matches InterceptStep::Wait { release_references }
                    && release_references == complete
            }
            &&& complete && completion@.sender is Some ==> {
                &&& step matches InvocationStep::Finish {
                    release_references,
                    result: Err(FlowError::Internal(text)),
                } && release_references && text@
                    == "async C callback returned Complete without settling"@
                &&& intercept matches InterceptStep::Finish {
                    release_references,
                    result: Err(FlowError::Internal(text)),
                } && release_references && text@
                    == "async C intercept returned Complete without settling"@
            }
        }),
{
}

/// An invocation ends with the very result that settled its completion, be it a value of
/// whatever kind or an error. Where nothing ever did, it fails.
pub proof fn law_invocation_ends_with_the_settled_result<S, H>(
    completion: NemoRelayAsyncCompletion<S>,
    received: Option<FlowResult<Json>>,
    step: InvocationStep,
    intercept: InterceptStep<H>,
)
    requires
        call_ensures(
            invoke_async_json::<S>,
            (&completion, InvocationEvent::Received(received)),
            step,
        ),
        call_ensures(
            invoke_async_intercept::<S, H>,
            (&completion, InterceptEvent::<H>::Received(received)),
            intercept,
        ),
    ensures
        step matches InvocationStep::Finish { release_references, .. } && !release_references,
        intercept matches InterceptStep::Finish { release_references, .. } && !release_references,
        received matches Some(result) ==> step->result == result && intercept->result == result,
        received is None ==> {
            &&& step->result matches Err(FlowError::Internal(text)) && text@
                == "async C callback dropped without settling"@
            &&& intercept->result matches Err(FlowError::Internal(text)) && text@
                == "async C intercept dropped without settling"@
        },
{
}

} // verus!
