//! Calls into JavaScript: how a callback is queued with its arguments, how its
//! promise settles, and what is left once the callback is closed.

use vstd::prelude::*;

use crate::error::{
    internal, internal_error, internal_message, outcome, FlowError, FlowErrorModel, FlowResult,
};
use crate::json::{Json, JsonModel};

verus! {

/// The first argument of a callback.
pub enum PrimaryArg<B> {
    /// A plain value.
    Json(Json),
    /// A value that is built on the JavaScript thread.
    Build(B),
}

/// The layer behind a middleware callback's `next`.
pub enum NextFn<J, S> {
    /// It ends with one value.
    Json(J),
    /// It ends with the chunks of a stream.
    Stream(S),
}

/// The one-shot completion of a queued call.
pub struct CallCompletion<C> {
    sender: Option<C>,
}

/// A queued call.
pub struct CallArgs<B, J, S, C> {
    /// The first argument.
    pub arg0: PrimaryArg<B>,
    /// Whether the first argument is an array of arguments.
    pub spread: bool,
    /// The layer behind `next`, if the callback gets one.
    pub next: Option<NextFn<J, S>>,
    /// What takes the result.
    pub completion: CallCompletion<C>,
}

/// A result on its way through the sender it belongs to.
pub struct CallSettlement<C> {
    /// The sender.
    pub sender: C,
    /// The result to send.
    pub result: FlowResult<Json>,
}

/// A settlement with its result taken by its model.
pub open spec fn call_settlement_model<C>(settlement: Option<CallSettlement<C>>) -> Option<
    (C, Result<JsonModel, FlowErrorModel>),
> {
    match settlement {
        Some(settlement) => Some((settlement.sender, outcome(settlement.result))),
        None => None,
    }
}

/// What becomes of a completion that is sent a result: the first result leaves
/// through the sender, a later one is lost.
pub open spec fn sent<C>(sender: Option<C>, result: Result<JsonModel, FlowErrorModel>) -> (
    Option<C>,
    Option<(C, Result<JsonModel, FlowErrorModel>)>,
) {
    match sender {
        Some(sender) => (None, Some((sender, result))),
        None => (None, None),
    }
}

impl<C> CallCompletion<C> {
    /// The sender, until a result is taken.
    pub closed spec fn sender(self) -> Option<C> {
        self.sender
    }

    /// A completion that nobody has settled.
    pub fn new(sender: C) -> (completion: Self)
        ensures
            completion.sender() == Some(sender),
    {
        CallCompletion { sender: Some(sender) }
    }

    /// Settles the completion, unless it was settled before.
    pub fn send(&mut self, result: FlowResult<Json>) -> (settlement: Option<CallSettlement<C>>)
        ensures
            (final(self).sender(), call_settlement_model(settlement)) == sent(
                old(self).sender(),
                outcome(result),
            ),
            match old(self).sender() {
                Some(sender) => settlement == Some(CallSettlement { sender, result }),
                None => settlement is None,
            },
    {
        match self.sender.take() {
            Some(sender) => Some(CallSettlement { sender, result }),
            None => None,
        }
    }

    /// Settles the completion with what the callback resolved to, or with the
    /// reason why that is not JSON.
    pub fn resolve(&mut self, value: Result<Json, String>) -> (settlement: Option<
        CallSettlement<C>,
    >)
        ensures
            (final(self).sender(), call_settlement_model(settlement)) == sent(
                old(self).sender(),
                resolved_value(value),
            ),
            value matches Ok(json) ==> (settlement matches Some(made) ==> made.result
                == FlowResult::<Json>::Ok(json)),
    {
        self.send(
            match value {
                Ok(value) => Ok(value),
                Err(error) => Err(
                    internal_error(
                        "JavaScript callback result could not be converted to JSON: ",
                        error.as_str(),
                    ),
                ),
            },
        )
    }

    /// Settles the completion with the message that the callback rejected with;
    /// `None` where that is no string.
    pub fn reject(&mut self, message: Option<String>) -> (settlement: Option<CallSettlement<C>>)
        ensures
            (final(self).sender(), call_settlement_model(settlement)) == sent(
                old(self).sender(),
                rejected_value(message.deep_view()),
            ),
            message matches Some(text) ==> (settlement matches Some(made) ==> made.result
                == FlowResult::<Json>::Err(FlowError::Internal(text))),
    {
        self.send(
            Err(
                match message {
                    Some(message) => FlowError::Internal(message),
                    None => internal_message("unknown error"),
                },
            ),
        )
    }
}

/// The result of a callback that resolved.
pub open spec fn resolved_value(value: Result<Json, String>) -> Result<JsonModel, FlowErrorModel> {
    match value {
        Ok(value) => Ok(value.deep_view()),
        Err(error) => Err(
            internal("JavaScript callback result could not be converted to JSON: "@, error@),
        ),
    }
}

/// The result of a callback that rejected.
pub open spec fn rejected_value(message: Option<Seq<char>>) -> Result<JsonModel, FlowErrorModel> {
    match message {
        Some(message) => Err(FlowErrorModel::Internal(message)),
        None => Err(FlowErrorModel::Internal("unknown error"@)),
    }
}

/// The error of a call after the callback was closed.
pub fn closed_tsfn_error() -> (error: FlowError)
    ensures
        error.deep_view() == FlowErrorModel::Internal("PromiseAwareFn threadsafe function closed"@),
{
    internal_message("PromiseAwareFn threadsafe function closed")
}

/// Whether a call could be queued, and otherwise the error it fails with, which names
/// the failing status.
pub fn queue_status_result(status: Result<(), String>) -> (result: FlowResult<()>)
    ensures
        outcome(result) == match status {
            Ok(()) => Ok(()),
            Err(status) => Err(internal("failed to queue threadsafe function call: "@, status@)),
        },
{
    match status {
        Ok(()) => Ok(()),
        Err(status) => Err(
            internal_error("failed to queue threadsafe function call: ", status.as_str()),
        ),
    }
}

/// The result of a queued call: what its completion was settled with, or else the
/// reason why nothing came.
pub fn received_result(received: Result<FlowResult<Json>, String>) -> (result: FlowResult<Json>)
    ensures
        outcome(result) == match received {
            Ok(settled) => outcome(settled),
            Err(error) => Err(FlowErrorModel::Internal(error@)),
        },
        received matches Ok(settled) ==> result == settled,
{
    match received {
        Ok(settled) => settled,
        Err(error) => Err(FlowError::Internal(error)),
    }
}

/// The argument that a `next` was called with; null where it is missing or cannot
/// be read.
pub fn next_argument(argument: Option<Json>) -> (value: Json)
    ensures
        value.deep_view() == match argument {
            Some(argument) => argument.deep_view(),
            None => JsonModel::Null,
        },
        argument matches Some(given) ==> value == given,
{
    match argument {
        Some(argument) => argument,
        None => Json::Null,
    }
}

/// One argument of the JavaScript function behind a callback.
pub enum JsArgument<B, J, S> {
    /// A plain value.
    Json(Json),
    /// A value to build.
    Build(B),
    /// A boolean.
    Boolean(bool),
    /// A function that runs the next layer.
    Next(NextFn<J, S>),
    /// Nothing.
    Undefined,
    /// The function that resolves the completion.
    Resolve,
    /// The function that rejects the completion.
    Reject,
}

/// The arguments of the JavaScript function for a queued call: the first argument,
/// whether to spread it, `next`, and the two functions that settle the completion.
pub open spec fn argument_list<B, J, S, C>(call: CallArgs<B, J, S, C>) -> Seq<
    JsArgument<B, J, S>,
> {
    seq![
        match call.arg0 {
            PrimaryArg::Json(value) => JsArgument::Json(value),
            PrimaryArg::Build(build) => JsArgument::Build(build),
        },
        JsArgument::Boolean(call.spread),
        match call.next {
            Some(next) => JsArgument::Next(next),
            None => JsArgument::Undefined,
        },
        JsArgument::Resolve,
        JsArgument::Reject,
    ]
}

/// Takes a queued call apart: the arguments of the JavaScript function, and the
/// completion that its last two arguments settle.
pub fn callback_arguments<B, J, S, C>(call: CallArgs<B, J, S, C>) -> (parts: (
    Vec<JsArgument<B, J, S>>,
    CallCompletion<C>,
))
    ensures
        parts.0@ == argument_list(call),
        parts.1 == call.completion,
{
    let arg0 = match call.arg0 {
        PrimaryArg::Json(value) => JsArgument::Json(value),
        PrimaryArg::Build(build) => JsArgument::Build(build),
    };
    let next = match call.next {
        Some(next) => JsArgument::Next(next),
        None => JsArgument::Undefined,
    };
    let arguments = vec![
        arg0,
        JsArgument::Boolean(call.spread),
        next,
        JsArgument::Resolve,
        JsArgument::Reject,
    ];
    (arguments, call.completion)
}

/// A JavaScript function that can be called from any thread, until it is closed.
pub struct PromiseAwareFn<F> {
    tsfn: Option<F>,
}

/// A call that is ready to be queued.
pub struct QueuedCall<'a, F, B, J, S, C> {
    /// The threadsafe function to queue it on.
    pub tsfn: &'a F,
    /// The call.
    pub args: CallArgs<B, J, S, C>,
}

/// A call as it is queued.
pub struct CallModel<B, J, S, C> {
    /// The first argument, where it is a plain value.
    pub json: Option<JsonModel>,
    /// The first argument, where it has to be built.
    pub build: Option<B>,
    /// Whether the first argument is an array of arguments.
    pub spread: bool,
    /// The layer behind `next`.
    pub next: Option<NextFn<J, S>>,
    /// What takes the result.
    pub sender: Option<C>,
}

impl<B, J, S, C> View for CallArgs<B, J, S, C> {
    type V = CallModel<B, J, S, C>;

    open spec fn view(&self) -> CallModel<B, J, S, C> {
        CallModel {
            json: match self.arg0 {
                PrimaryArg::Json(value) => Some(value.deep_view()),
                PrimaryArg::Build(_) => None,
            },
            build: match self.arg0 {
                PrimaryArg::Json(_) => None,
                PrimaryArg::Build(build) => Some(build),
            },
            spread: self.spread,
            next: self.next,
            sender: self.completion.sender(),
        }
    }
}

/// Whether `queued` is the call `expected` on the given function, or the error of a
/// closed one.
pub open spec fn queues<F, B, J, S, C>(
    tsfn: Option<F>,
    queued: FlowResult<QueuedCall<'_, F, B, J, S, C>>,
    expected: CallModel<B, J, S, C>,
) -> bool {
    match tsfn {
        Some(tsfn) => queued matches Ok(call) && *call.tsfn == tsfn && call.args@ == expected,
        None => queued matches Err(error) && error.deep_view() == FlowErrorModel::Internal(
            "PromiseAwareFn threadsafe function closed"@,
        ),
    }
}

/// What is left of a callback once it is closed, and what closing hands out.
pub open spec fn after_close<F>(tsfn: Option<F>) -> (Option<F>, Option<F>) {
    (None, tsfn)
}

impl<F> PromiseAwareFn<F> {
    /// The threadsafe function, until the callback is closed.
    pub closed spec fn tsfn(self) -> Option<F> {
        self.tsfn
    }

    /// An open callback.
    pub fn new(tsfn: F) -> (callback: Self)
        ensures
            callback.tsfn() == Some(tsfn),
    {
        PromiseAwareFn { tsfn: Some(tsfn) }
    }

    fn call_inner<B, J, S, C>(
        &self,
        arg0: PrimaryArg<B>,
        spread: bool,
        next: Option<NextFn<J, S>>,
        sender: C,
    ) -> (queued: FlowResult<QueuedCall<'_, F, B, J, S, C>>)
        ensures
            match self.tsfn() {
                Some(tsfn) => queued matches Ok(call) && *call.tsfn == tsfn && call.args.arg0
                    == arg0 && call.args.spread == spread && call.args.next == next
                    && call.args.completion.sender() == Some(sender),
                None => queued matches Err(error) && error.deep_view()
                    == FlowErrorModel::Internal("PromiseAwareFn threadsafe function closed"@),
            },
    {
        match &self.tsfn {
            Some(tsfn) => Ok(
                QueuedCall {
                    tsfn,
                    args: CallArgs { arg0, spread, next, completion: CallCompletion::new(sender) },
                },
            ),
            None => Err(closed_tsfn_error()),
        }
    }

    /// Queues a call with one argument.
    pub fn call<B, J, S, C>(&self, args: Json, sender: C) -> (queued: FlowResult<
        QueuedCall<'_, F, B, J, S, C>,
    >)
        ensures
            queues(
                self.tsfn(),
                queued,
                CallModel {
                    json: Some(args.deep_view()),
                    build: None,
                    spread: false,
                    next: None,
                    sender: Some(sender),
                },
            ),
            queued matches Ok(call) ==> call.args.arg0 == PrimaryArg::<B>::Json(args),
    {
        self.call_inner(PrimaryArg::Json(args), false, None, sender)
    }

    /// Queues a call with several arguments.
    pub fn call_spread<B, J, S, C>(&self, args: &Vec<Json>, sender: C) -> (queued: FlowResult<
        QueuedCall<'_, F, B, J, S, C>,
    >)
        ensures
            queues(
                self.tsfn(),
                queued,
                CallModel {
                    json: Some(
                        JsonModel::Array(
                            args.deep_view().map_values(|value: JsonModel| value.text()),
                        ),
                    ),
                    build: None,
                    spread: true,
                    next: None,
                    sender: Some(sender),
                },
            ),
    {
        self.call_inner(PrimaryArg::Json(Json::array(args)), true, None, sender)
    }

    /// Queues a call whose argument is built on the JavaScript thread.
    pub fn call_with_arg0<B, J, S, C>(&self, build_arg0: B, sender: C) -> (queued: FlowResult<
        QueuedCall<'_, F, B, J, S, C>,
    >)
        ensures
            queues(
                self.tsfn(),
                queued,
                CallModel {
                    json: None,
                    build: Some(build_arg0),
                    spread: false,
                    next: None,
                    sender: Some(sender),
                },
            ),
            queued matches Ok(call) ==> call.args.arg0 == PrimaryArg::<B>::Build(build_arg0),
    {
        self.call_inner(PrimaryArg::Build(build_arg0), false, None, sender)
    }

    /// Queues a call whose several arguments are built on the JavaScript thread.
    pub fn call_spread_with_arg0<B, J, S, C>(&self, build_arg0: B, sender: C) -> (queued:
        FlowResult<QueuedCall<'_, F, B, J, S, C>>)
        ensures
            queues(
                self.tsfn(),
                queued,
                CallModel {
                    json: None,
                    build: Some(build_arg0),
                    spread: true,
                    next: None,
                    sender: Some(sender),
                },
            ),
            queued matches Ok(call) ==> call.args.arg0 == PrimaryArg::<B>::Build(build_arg0),
    {
        self.call_inner(PrimaryArg::Build(build_arg0), true, None, sender)
    }

    /// Queues a middleware call whose `next` ends with one value.
    pub fn call_with_json_next<B, J, S, C>(&self, args: Json, next: J, sender: C) -> (queued:
        FlowResult<QueuedCall<'_, F, B, J, S, C>>)
        ensures
            queues(
                self.tsfn(),
                queued,
                CallModel {
                    json: Some(args.deep_view()),
                    build: None,
                    spread: false,
                    next: Some(NextFn::Json(next)),
                    sender: Some(sender),
                },
            ),
            queued matches Ok(call) ==> call.args.arg0 == PrimaryArg::<B>::Json(args),
    {
        self.call_inner(PrimaryArg::Json(args), false, Some(NextFn::Json(next)), sender)
    }

    /// Queues a middleware call whose `next` ends with the chunks of a stream.
    pub fn call_with_stream_next<B, J, S, C>(&self, args: Json, next: S, sender: C) -> (queued:
        FlowResult<QueuedCall<'_, F, B, J, S, C>>)
        ensures
            queues(
                self.tsfn(),
                queued,
                CallModel {
                    json: Some(args.deep_view()),
                    build: None,
                    spread: false,
                    next: Some(NextFn::Stream(next)),
                    sender: Some(sender),
                },
            ),
            queued matches Ok(call) ==> call.args.arg0 == PrimaryArg::<B>::Json(args),
    {
        self.call_inner(PrimaryArg::Json(args), false, Some(NextFn::Stream(next)), sender)
    }

    /// Closes the callback and hands out the threadsafe function, which has to be
    /// aborted; `None` where the callback was closed before.
    pub fn close(&mut self) -> (tsfn: Option<F>)
        ensures
            (final(self).tsfn(), tsfn) == after_close(old(self).tsfn()),
    {
        self.tsfn.take()
    }
}

/// A completion after a sequence of results, with every settlement on the way.
pub open spec fn sent_all<C>(
    sender: Option<C>,
    results: Seq<Result<JsonModel, FlowErrorModel>>,
) -> (Option<C>, Seq<(C, Result<JsonModel, FlowErrorModel>)>)
    decreases results.len(),
{
    if results.len() == 0 {
        (sender, Seq::empty())
    } else {
        let (before, settlements) = sent_all(sender, results.drop_last());
        let (after, settlement) = sent(before, results.last());
        (
            after,
            match settlement {
                Some(settlement) => settlements.push(settlement),
                None => settlements,
            },
        )
    }
}

/// However often a callback resolves and rejects, the first result settles the call
/// and every later one is lost.
pub proof fn law_first_result_settles_the_call<C>(
    sender: C,
    results: Seq<Result<JsonModel, FlowErrorModel>>,
)
    requires
        results.len() > 0,
    ensures
        sent_all(Some(sender), results) == (None::<C>, seq![(sender, results[0])]),
    decreases results.len(),
{
    if results.len() > 1 {
        law_first_result_settles_the_call(sender, results.drop_last());
    } else {
        reveal_with_fuel(sent_all, 2);
        assert(sent_all(Some(sender), results).1 =~= seq![(sender, results[0])]);
    }
}

/// Closing hands out the threadsafe function once, and every call afterwards fails
/// with the error of a closed callback.
pub proof fn law_closed_callback_refuses_every_call<F, B, J, S, C>(
    tsfn: Option<F>,
    queued: FlowResult<QueuedCall<'_, F, B, J, S, C>>,
    call: CallModel<B, J, S, C>,
)
    requires
        queues(after_close(tsfn).0, queued, call),
    ensures
        queued is Err,
        queued->Err_0.deep_view() == FlowErrorModel::Internal(
            "PromiseAwareFn threadsafe function closed"@,
        ),
        after_close(after_close(tsfn).0) == (None::<F>, None::<F>),
{
}

/// The first result that a completion is sent leaves through its sender as it is, be it a
/// value or an error; a later one is lost. Either way no sender is left.
pub proof fn law_first_result_is_sent_unchanged<C>(
    completion: &mut CallCompletion<C>,
    result: FlowResult<Json>,
    settlement: Option<CallSettlement<C>>,
)
    requires
        call_ensures(CallCompletion::<C>::send, (completion, result), settlement),
    ensures
        old(completion).sender() matches Some(sender) ==> (settlement matches Some(made)
            && made.sender == sender && made.result == result),
        old(completion).sender() is None ==> settlement is None,
        final(completion).sender() is None,
{
}

/// A completion starts with its sender.
pub proof fn law_new_call_is_unsettled<C>(sender: C, completion: CallCompletion<C>)
    requires
        call_ensures(CallCompletion::<C>::new, (sender,), completion),
    ensures
        completion.sender() == Some(sender),
{
}

/// A callback that resolves to a value settles its call with that very value, of the same
/// kind: an object, a number, a boolean, a string, an array or null. A result that is no
/// JSON fails the call, and says why.
pub proof fn law_resolved_value_settles_the_call<C>(
    completion: &mut CallCompletion<C>,
    value: Result<Json, String>,
    settlement: Option<CallSettlement<C>>,
)
    requires
        call_ensures(CallCompletion::<C>::resolve, (completion, value), settlement),
    ensures
        old(completion).sender() is None ==> settlement is None,
        old(completion).sender() matches Some(sender) ==> {
            &&& settlement matches Some(made) && made.sender == sender
            &&& value matches Ok(json) ==> settlement->0.result == FlowResult::<Json>::Ok(json)
            &&& value matches Err(error) ==> (settlement->0.result matches Err(
                FlowError::Internal(text),
            ) && text@ == "JavaScript callback result could not be converted to JSON: "@ + error@)
        },
        final(completion).sender() is None,
{
}

/// What a callback resolves and rejects with, over models: a value stays the value it is,
/// and a message is what the internal error says.
pub proof fn law_settled_call_keeps_the_value(
    value: Json,
    error: String,
    message: Seq<char>,
)
    ensures
        resolved_value(Ok(value)) == Ok::<JsonModel, FlowErrorModel>(value.deep_view()),
        resolved_value(Err(error)) == Err::<JsonModel, FlowErrorModel>(
            FlowErrorModel::Internal(
                "JavaScript callback result could not be converted to JSON: "@ + error@,
            ),
        ),
        rejected_value(Some(message)) == Err::<JsonModel, FlowErrorModel>(
            FlowErrorModel::Internal(message),
        ),
        rejected_value(None) == Err::<JsonModel, FlowErrorModel>(
            FlowErrorModel::Internal("unknown error"@),
        ),
{
}

/// A callback that rejects with a message fails its call with exactly that message; one
/// that rejects with anything else fails it all the same.
pub proof fn law_rejection_fails_the_call<C>(
    completion: &mut CallCompletion<C>,
    message: Option<String>,
    settlement: Option<CallSettlement<C>>,
)
    requires
        call_ensures(CallCompletion::<C>::reject, (completion, message), settlement),
    ensures
        old(completion).sender() is None ==> settlement is None,
        old(completion).sender() matches Some(sender) ==> {
            &&& settlement matches Some(made) && made.sender == sender
            &&& settlement->0.result matches Err(FlowError::Internal(text)) && text@ == (
            match message {
                Some(message) => message@,
                None => "unknown error"@,
            })
        },
        final(completion).sender() is None,
{
}

/// A queued call ends with exactly what settled it, be it a value or an error, or fails
/// with the reason why nothing came; a call that could not be queued fails with the status
/// it names; and a `next` runs with exactly the argument it was called with, or null.
pub proof fn law_call_ends_with_what_settled_it(
    received: Result<FlowResult<Json>, String>,
    result: FlowResult<Json>,
    status: Result<(), String>,
    queued: FlowResult<()>,
    argument: Option<Json>,
    value: Json,
)
    requires
        call_ensures(received_result, (received,), result),
        call_ensures(queue_status_result, (status,), queued),
        call_ensures(next_argument, (argument,), value),
    ensures
        received matches Ok(settled) ==> result == settled,
        received matches Err(error) ==> (result matches Err(FlowError::Internal(text)) && text@
            == error@),
        status is Ok <==> queued is Ok,
        status matches Err(name) ==> (queued matches Err(FlowError::Internal(text)) && text@
            == "failed to queue threadsafe function call: "@ + name@),
        argument matches Some(given) ==> value == given,
        argument is None ==> value is Null,
{
}

/// The JavaScript function gets five arguments: the first argument as it is, whether it is
/// spread, the `next` as it is or nothing, and then the two functions that settle the very
/// completion of the call.
pub proof fn law_queued_call_is_taken_apart_whole<B, J, S, C>(
    call: CallArgs<B, J, S, C>,
    parts: (Vec<JsArgument<B, J, S>>, CallCompletion<C>),
)
    requires
        call_ensures(callback_arguments::<B, J, S, C>, (call,), parts),
    ensures
        parts.0@.len() == 5,
        call.arg0 matches PrimaryArg::Json(value) ==> parts.0@[0] == JsArgument::<B, J, S>::Json(
            value,
        ),
        call.arg0 matches PrimaryArg::Build(build) ==> parts.0@[0] == JsArgument::<
            B,
            J,
            S,
        >::Build(build),
        parts.0@[1] == JsArgument::<B, J, S>::Boolean(call.spread),
        call.next matches Some(next) ==> parts.0@[2] == JsArgument::<B, J, S>::Next(next),
        call.next is None ==> parts.0@[2] is Undefined,
        parts.0@[3] is Resolve,
        parts.0@[4] is Reject,
        parts.1 == call.completion,
{
}

/// Whether `queued` is a call on the given function, with this completion.
pub open spec fn queued_on<F, B, J, S, C>(
    queued: FlowResult<QueuedCall<'_, F, B, J, S, C>>,
    tsfn: F,
    spread: bool,
    next: Option<NextFn<J, S>>,
    sender: C,
) -> bool {
    queued matches Ok(call) && *call.tsfn == tsfn && call.args.spread == spread && call.args.next
        == next && call.args.completion.sender() == Some(sender)
}

/// An open callback queues every call on its own function, with a completion that holds
/// the given sender, and with exactly the argument it was given; only a middleware call
/// has a `next`, which is the given one.
pub proof fn law_open_callback_queues_the_call<F, B, J, S, C>(
    callback: PromiseAwareFn<F>,
    args: Json,
    build: B,
    json_next: J,
    stream_next: S,
    sender: C,
    plain: FlowResult<QueuedCall<'_, F, B, J, S, C>>,
    built: FlowResult<QueuedCall<'_, F, B, J, S, C>>,
    built_spread: FlowResult<QueuedCall<'_, F, B, J, S, C>>,
    with_json: FlowResult<QueuedCall<'_, F, B, J, S, C>>,
    with_stream: FlowResult<QueuedCall<'_, F, B, J, S, C>>,
)
    requires
        callback.tsfn() is Some,
        call_ensures(
            PromiseAwareFn::<F>::call::<B, J, S, C>,
            (&callback, args, sender),
            plain,
        ),
        call_ensures(
            PromiseAwareFn::<F>::call_with_arg0::<B, J, S, C>,
            (&callback, build, sender),
            built,
        ),
        call_ensures(
            PromiseAwareFn::<F>::call_spread_with_arg0::<B, J, S, C>,
            (&callback, build, sender),
            built_spread,
        ),
        call_ensures(
            PromiseAwareFn::<F>::call_with_json_next::<B, J, S, C>,
            (&callback, args, json_next, sender),
            with_json,
        ),
        call_ensures(
            PromiseAwareFn::<F>::call_with_stream_next::<B, J, S, C>,
            (&callback, args, stream_next, sender),
            with_stream,
        ),
    ensures
        ({
            let tsfn = callback.tsfn()->0;
            &&& queued_on(plain, tsfn, false, None, sender)
            &&& queued_on(built, tsfn, false, None, sender)
            &&& queued_on(built_spread, tsfn, true, None, sender)
            &&& queued_on(with_json, tsfn, false, Some(NextFn::Json(json_next)), sender)
            &&& queued_on(with_stream, tsfn, false, Some(NextFn::Stream(stream_next)), sender)
            &&& plain->Ok_0.args.arg0 == PrimaryArg::<B>::Json(args)
            &&& built->Ok_0.args.arg0 == PrimaryArg::<B>::Build(build)
            &&& built_spread->Ok_0.args.arg0 == PrimaryArg::<B>::Build(build)
            &&& with_json->Ok_0.args.arg0 == PrimaryArg::<B>::Json(args)
            &&& with_stream->Ok_0.args.arg0 == PrimaryArg::<B>::Json(args)
        }),
{
}

/// A call with several arguments is queued with the array of their texts, all of them and
/// in order, to be spread.
pub proof fn law_several_arguments_are_queued_in_order<F, B, J, S, C>(
    callback: PromiseAwareFn<F>,
    args: Vec<Json>,
    sender: C,
    queued: FlowResult<QueuedCall<'_, F, B, J, S, C>>,
)
    requires
        callback.tsfn() is Some,
        call_ensures(
            PromiseAwareFn::<F>::call_spread::<B, J, S, C>,
            (&callback, &args, sender),
            queued,
        ),
    ensures
        queued_on(queued, callback.tsfn()->0, true, None, sender),
        queued->Ok_0.args.arg0 matches PrimaryArg::Json(Json::Array(items)) && items@.len()
            == args@.len() && forall|i: int|
            0 <= i < args@.len() ==> (#[trigger] items@[i])@ == args@[i].deep_view().text(),
{
    let call = queued->Ok_0.args;
    let texts = args.deep_view().map_values(|value: JsonModel| value.text());
    assert(call@.json == Some(JsonModel::Array(texts)));
    let items = call.arg0->Json_0->Array_0;
    assert(items.deep_view() == texts);
    assert(items@.len() == items.deep_view().len());
    assert forall|i: int| 0 <= i < args@.len() implies (#[trigger] items@[i])@
        == args@[i].deep_view().text() by {
        assert(items.deep_view()[i] == texts[i]);
    }
}

/// An open callback is made of its function; closing hands that function out, once, and
/// leaves the callback closed.
pub proof fn law_closing_hands_out_the_function_once<F>(
    tsfn: F,
    opened: PromiseAwareFn<F>,
    callback: &mut PromiseAwareFn<F>,
    closed: Option<F>,
)
    requires
        call_ensures(PromiseAwareFn::<F>::new, (tsfn,), opened),
        call_ensures(PromiseAwareFn::<F>::close, (callback,), closed),
    ensures
        opened.tsfn() == Some(tsfn),
        closed == old(callback).tsfn(),
        final(callback).tsfn() is None,
{
}

/// A closed callback queues nothing: every call fails, and says that it is closed.
pub proof fn law_closed_callback_queues_nothing<F, B, J, S, C>(
    callback: PromiseAwareFn<F>,
    args: Json,
    several: Vec<Json>,
    build: B,
    json_next: J,
    stream_next: S,
    sender: C,
    queued: FlowResult<QueuedCall<'_, F, B, J, S, C>>,
    error: FlowError,
)
    requires
        callback.tsfn() is None,
        call_ensures(PromiseAwareFn::<F>::call::<B, J, S, C>, (&callback, args, sender), queued)
            || call_ensures(
            PromiseAwareFn::<F>::call_spread::<B, J, S, C>,
            (&callback, &several, sender),
            queued,
        ) || call_ensures(
            PromiseAwareFn::<F>::call_with_arg0::<B, J, S, C>,
            (&callback, build, sender),
            queued,
        ) || call_ensures(
            PromiseAwareFn::<F>::call_spread_with_arg0::<B, J, S, C>,
            (&callback, build, sender),
            queued,
        ) || call_ensures(
            PromiseAwareFn::<F>::call_with_json_next::<B, J, S, C>,
            (&callback, args, json_next, sender),
            queued,
        ) || call_ensures(
            PromiseAwareFn::<F>::call_with_stream_next::<B, J, S, C>,
            (&callback, args, stream_next, sender),
            queued,
        ),
        call_ensures(closed_tsfn_error, (), error),
    ensures
        queued matches Err(FlowError::Internal(text)) && text@
            == "PromiseAwareFn threadsafe function closed"@,
        error matches FlowError::Internal(text) && text@
            == "PromiseAwareFn threadsafe function closed"@,
{
}

/// From the JavaScript callback to the caller: what the callback resolves to is what the
/// awaited call ends with, the very value; and what it rejects with is the error.
pub proof fn law_awaited_call_ends_with_the_resolved_value<C>(
    sender: C,
    resolved: &mut CallCompletion<C>,
    value: Json,
    settled: Option<CallSettlement<C>>,
    result: FlowResult<Json>,
    rejected: &mut CallCompletion<C>,
    message: String,
    refused: Option<CallSettlement<C>>,
    failure: FlowResult<Json>,
)
    requires
        call_ensures(CallCompletion::<C>::new, (sender,), *old(resolved)),
        call_ensures(CallCompletion::<C>::resolve, (resolved, Ok(value)), settled),
        settled is Some,
        call_ensures(received_result, (Ok(settled->0.result),), result),
        call_ensures(CallCompletion::<C>::new, (sender,), *old(rejected)),
        call_ensures(CallCompletion::<C>::reject, (rejected, Some(message)), refused),
        refused is Some,
        call_ensures(received_result, (Ok(refused->0.result),), failure),
    ensures
        settled->0.sender == sender && refused->0.sender == sender,
        result == FlowResult::<Json>::Ok(value),
        failure matches Err(FlowError::Internal(text)) && text@ == message@,
{
}

} // verus!
