//! Status codes and errors shared by every boundary of the relay.

use vstd::prelude::*;
use vstd::string::*;

verus! {

/// Status handed back over the C boundary.
#[derive(Debug, Clone, Copy, PartialEq, Eq, Structural)]
pub enum NemoRelayStatus {
    /// The call did what it was asked to do.
    Success,
    /// The item to be created exists already.
    AlreadyExists,
    /// The item asked for does not exist.
    NotFound,
    /// An argument is unusable in the current state.
    InvalidArg,
    /// No scope is active.
    ScopeStackEmpty,
    /// A guardrail rejected the call.
    GuardrailRejected,
    /// Something went wrong inside the relay.
    Internal,
    /// A required pointer was null.
    NullPointer,
    /// A text argument was not valid JSON of the expected shape.
    InvalidJson,
    /// A text argument was not valid UTF-8.
    InvalidUtf8,
}

/// Why a relay operation failed.
#[derive(Debug)]
pub enum FlowError {
    /// The item to be created exists already.
    AlreadyExists(String),
    /// The item asked for does not exist.
    NotFound(String),
    /// An argument is unusable.
    InvalidArgument(String),
    /// A guardrail rejected the operation.
    GuardrailRejected(String),
    /// No scope is active.
    ScopeStackEmpty,
    /// Something went wrong inside the relay.
    Internal(String),
}

/// Result of a relay operation.
pub type FlowResult<T> = Result<T, FlowError>;

/// A [`FlowError`] with its text as a character sequence.
pub enum FlowErrorModel {
    /// See [`FlowError::AlreadyExists`].
    AlreadyExists(Seq<char>),
    /// See [`FlowError::NotFound`].
    NotFound(Seq<char>),
    /// See [`FlowError::InvalidArgument`].
    InvalidArgument(Seq<char>),
    /// See [`FlowError::GuardrailRejected`].
    GuardrailRejected(Seq<char>),
    /// See [`FlowError::ScopeStackEmpty`].
    ScopeStackEmpty,
    /// See [`FlowError::Internal`].
    Internal(Seq<char>),
}

impl DeepView for FlowError {
    type V = FlowErrorModel;

    open spec fn deep_view(&self) -> FlowErrorModel {
        match self {
            FlowError::AlreadyExists(text) => FlowErrorModel::AlreadyExists(text@),
            FlowError::NotFound(text) => FlowErrorModel::NotFound(text@),
            FlowError::InvalidArgument(text) => FlowErrorModel::InvalidArgument(text@),
            FlowError::GuardrailRejected(text) => FlowErrorModel::GuardrailRejected(text@),
            FlowError::ScopeStackEmpty => FlowErrorModel::ScopeStackEmpty,
            FlowError::Internal(text) => FlowErrorModel::Internal(text@),
        }
    }
}

/// A flow result with both sides taken by their models.
pub open spec fn outcome<T: DeepView>(result: FlowResult<T>) -> Result<T::V, FlowErrorModel> {
    match result {
        Ok(value) => Ok(value.deep_view()),
        Err(error) => Err(error.deep_view()),
    }
}

/// The model of an internal error made of a prefix and the reason behind it.
pub open spec fn internal(prefix: Seq<char>, reason: Seq<char>) -> FlowErrorModel {
    FlowErrorModel::Internal(prefix + reason)
}

impl FlowErrorModel {
    /// How the error reads.
    pub open spec fn text(self) -> Seq<char> {
        match self {
            FlowErrorModel::AlreadyExists(text) => "already exists: "@ + text,
            FlowErrorModel::NotFound(text) => "not found: "@ + text,
            FlowErrorModel::InvalidArgument(text) => "invalid argument: "@ + text,
            FlowErrorModel::GuardrailRejected(text) => "guardrail rejected: "@ + text,
            FlowErrorModel::ScopeStackEmpty => "scope stack empty"@,
            FlowErrorModel::Internal(text) => "internal error: "@ + text,
        }
    }
}

/// `prefix` followed by `rest`.
pub(crate) fn joined_text(prefix: &str, rest: &str) -> (text: String)
    ensures
        text@ == prefix@ + rest@,
{
    prefix.to_owned().concat(rest)
}

/// An internal error that says `prefix` and then `reason`.
pub(crate) fn internal_error(prefix: &str, reason: &str) -> (error: FlowError)
    ensures
        error.deep_view() == internal(prefix@, reason@),
{
    FlowError::Internal(joined_text(prefix, reason))
}

/// An internal error that says `message`.
pub(crate) fn internal_message(message: &str) -> (error: FlowError)
    ensures
        error.deep_view() == FlowErrorModel::Internal(message@),
{
    FlowError::Internal(message.to_owned())
}

impl FlowError {
    /// The error in words, as it is reported across a boundary.
    pub fn message(&self) -> (text: String)
        ensures
            text@ == self.deep_view().text(),
    {
        match self {
            FlowError::AlreadyExists(text) => joined_text("already exists: ", text.as_str()),
            FlowError::NotFound(text) => joined_text("not found: ", text.as_str()),
            FlowError::InvalidArgument(text) => joined_text("invalid argument: ", text.as_str()),
            FlowError::GuardrailRejected(text) => joined_text(
                "guardrail rejected: ",
                text.as_str(),
            ),
            FlowError::ScopeStackEmpty => "scope stack empty".to_owned(),
            FlowError::Internal(text) => joined_text("internal error: ", text.as_str()),
        }
    }
}

/// An error is reported as its kind and then its own text, whole and unchanged. Only an
/// empty scope stack has nothing to add to its kind.
pub proof fn law_error_reads_as_its_kind_and_text(error: FlowError, text: String)
    requires
        call_ensures(FlowError::message, (&error,), text),
    ensures
        error matches FlowError::AlreadyExists(own) ==> text@ == "already exists: "@ + own@,
        error matches FlowError::NotFound(own) ==> text@ == "not found: "@ + own@,
        error matches FlowError::InvalidArgument(own) ==> text@ == "invalid argument: "@ + own@,
        error matches FlowError::GuardrailRejected(own) ==> text@ == "guardrail rejected: "@
            + own@,
        error is ScopeStackEmpty ==> text@ == "scope stack empty"@,
        error matches FlowError::Internal(own) ==> text@ == "internal error: "@ + own@,
        text@ == error.deep_view().text(),
{
}

/// Two errors of one kind with one text are one error, and no two others are: the model
/// of an error loses nothing.
pub proof fn law_error_model_loses_nothing(error: FlowError, other: FlowError)
    ensures
        error.deep_view() == other.deep_view() <==> match (error, other) {
            (FlowError::AlreadyExists(one), FlowError::AlreadyExists(two)) => one@ == two@,
            (FlowError::NotFound(one), FlowError::NotFound(two)) => one@ == two@,
            (FlowError::InvalidArgument(one), FlowError::InvalidArgument(two)) => one@ == two@,
            (FlowError::GuardrailRejected(one), FlowError::GuardrailRejected(two)) => one@
                == two@,
            (FlowError::ScopeStackEmpty, FlowError::ScopeStackEmpty) => true,
            (FlowError::Internal(one), FlowError::Internal(two)) => one@ == two@,
            _ => false,
        },
        error matches FlowError::AlreadyExists(own) ==> error.deep_view()
            == FlowErrorModel::AlreadyExists(own@),
        error matches FlowError::NotFound(own) ==> error.deep_view() == FlowErrorModel::NotFound(
            own@,
        ),
        error matches FlowError::InvalidArgument(own) ==> error.deep_view()
            == FlowErrorModel::InvalidArgument(own@),
        error matches FlowError::GuardrailRejected(own) ==> error.deep_view()
            == FlowErrorModel::GuardrailRejected(own@),
        error is ScopeStackEmpty ==> error.deep_view() == FlowErrorModel::ScopeStackEmpty,
        error matches FlowError::Internal(own) ==> error.deep_view() == FlowErrorModel::Internal(
            own@,
        ),
{
}

/// A result taken by its model stays what it is: a success with its value, or a failure
/// with its error.
pub proof fn law_outcome_keeps_both_sides<T: DeepView>(result: FlowResult<T>)
    ensures
        result is Ok <==> outcome(result) is Ok,
        result matches Ok(value) ==> outcome(result)->Ok_0 == value.deep_view(),
        result matches Err(error) ==> outcome(result)->Err_0 == error.deep_view(),
{
}

/// An internal error made of two parts says the first and then the second.
pub proof fn law_internal_error_says_both_parts(prefix: Seq<char>, reason: Seq<char>)
    ensures
        internal(prefix, reason) matches FlowErrorModel::Internal(text) && text.len()
            == prefix.len() + reason.len() && text.take(prefix.len() as int) == prefix
            && text.skip(prefix.len() as int) == reason,
{
    assert((prefix + reason).take(prefix.len() as int) =~= prefix);
    assert((prefix + reason).skip(prefix.len() as int) =~= reason);
}

} // verus!
