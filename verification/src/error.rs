//! What can go wrong on the way from a prompt to a delivered image.

use vstd::prelude::*;

verus! {

/// The ways in which a generation job fails.
#[derive(Debug, PartialEq, Eq)]
pub enum GenerationError {
    /// The command carried no usable text.
    EmptyPrompt,
    /// The backend could not be reached; `cause` is what the connection
    /// reported.
    BackendUnreachable { cause: String },
    /// The backend refused the submitted graph; `payload` is its answer,
    /// word for word.
    BackendRejected { payload: String },
    /// The backend accepted the graph and failed while executing it;
    /// `payload` is its report, word for word.
    ExecutionFailed { payload: String },
    /// The backend did not finish in the time that was allowed.
    TimedOut,
    /// The backend finished and returned no image.
    NoImageProduced,
    /// The template lacks one of the two fields that a request overwrites.
    MalformedTemplate,
}

/// A `GenerationError` as a mathematical value.
pub enum ErrorModel {
    EmptyPrompt,
    BackendUnreachable { cause: Seq<char> },
    BackendRejected { payload: Seq<char> },
    ExecutionFailed { payload: Seq<char> },
    TimedOut,
    NoImageProduced,
    MalformedTemplate,
}

impl View for GenerationError {
    type V = ErrorModel;

    open spec fn view(&self) -> ErrorModel {
        match self {
            GenerationError::EmptyPrompt => ErrorModel::EmptyPrompt,
            GenerationError::BackendUnreachable { cause } => ErrorModel::BackendUnreachable {
                cause: cause@,
            },
            GenerationError::BackendRejected { payload } => ErrorModel::BackendRejected {
                payload: payload@,
            },
            GenerationError::ExecutionFailed { payload } => ErrorModel::ExecutionFailed {
                payload: payload@,
            },
            GenerationError::TimedOut => ErrorModel::TimedOut,
            GenerationError::NoImageProduced => ErrorModel::NoImageProduced,
            GenerationError::MalformedTemplate => ErrorModel::MalformedTemplate,
        }
    }
}

pub const EMPTY_PROMPT_TEXT: &'static str = "no prompt was given";

pub const TIMED_OUT_TEXT: &'static str = "the backend did not finish in time";

pub const NO_IMAGE_TEXT: &'static str = "the backend produced no image";

pub const MALFORMED_TEMPLATE_TEXT: &'static str = "the generation template is malformed";

/// The words in which an error is described to the requester. What the
/// backend or the connection reported is passed on unchanged.
pub open spec fn description(error: ErrorModel) -> Seq<char> {
    match error {
        ErrorModel::EmptyPrompt => EMPTY_PROMPT_TEXT@,
        ErrorModel::BackendUnreachable { cause } => cause,
        ErrorModel::BackendRejected { payload } => payload,
        ErrorModel::ExecutionFailed { payload } => payload,
        ErrorModel::TimedOut => TIMED_OUT_TEXT@,
        ErrorModel::NoImageProduced => NO_IMAGE_TEXT@,
        ErrorModel::MalformedTemplate => MALFORMED_TEMPLATE_TEXT@,
    }
}

impl GenerationError {
    /// The words in which the error is described to the requester.
    pub fn describe(&self) -> (text: String)
        ensures
            text@ == description(self@),
    {
        match self {
            GenerationError::EmptyPrompt => String::from_str(EMPTY_PROMPT_TEXT),
            GenerationError::BackendUnreachable { cause } => cause.clone(),
            GenerationError::BackendRejected { payload } => payload.clone(),
            GenerationError::ExecutionFailed { payload } => payload.clone(),
            GenerationError::TimedOut => String::from_str(TIMED_OUT_TEXT),
            GenerationError::NoImageProduced => String::from_str(NO_IMAGE_TEXT),
            GenerationError::MalformedTemplate => String::from_str(MALFORMED_TEMPLATE_TEXT),
        }
    }

    /// A copy of the error.
    pub fn duplicate(&self) -> (copy: GenerationError)
        ensures
            copy@ == self@,
    {
        match self {
            GenerationError::EmptyPrompt => GenerationError::EmptyPrompt,
            GenerationError::BackendUnreachable { cause } => GenerationError::BackendUnreachable {
                cause: cause.clone(),
            },
            GenerationError::BackendRejected { payload } => GenerationError::BackendRejected {
                payload: payload.clone(),
            },
            GenerationError::ExecutionFailed { payload } => GenerationError::ExecutionFailed {
                payload: payload.clone(),
            },
            GenerationError::TimedOut => GenerationError::TimedOut,
            GenerationError::NoImageProduced => GenerationError::NoImageProduced,
            GenerationError::MalformedTemplate => GenerationError::MalformedTemplate,
        }
    }
}

} // verus!
