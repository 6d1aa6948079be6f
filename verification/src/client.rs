//! One submission to the rendering backend, from the backend's acceptance to
//! the artifacts or the error that end it.
//!
//! The backend names every accepted submission with a correlation
//! identifier, and reports completions under that identifier. A submission
//! takes what is reported under its own identifier and nothing else, so
//! that submissions in flight at the same time never get each other's
//! artifacts.

use vstd::prelude::*;
use crate::artifacts::ArtifactSet;
use crate::error::{ErrorModel, GenerationError};
use crate::named::same_text;

verus! {

/// Where a submission stands.
#[derive(Debug, PartialEq, Eq)]
pub enum Submission {
    /// Handed to the backend, not yet accepted.
    Pending,
    /// Accepted under `correlation`; its completion is awaited.
    Queued { correlation: String },
    /// Completed with these artifacts.
    Collected { artifacts: ArtifactSet },
    /// Ended without artifacts.
    Failed { error: GenerationError },
}

/// A `Submission` as a mathematical value.
pub enum SubmissionModel {
    Pending,
    Queued { correlation: Seq<char> },
    Collected { artifacts: Seq<(Seq<char>, Seq<u8>)> },
    Failed { error: ErrorModel },
}

impl View for Submission {
    type V = SubmissionModel;

    open spec fn view(&self) -> SubmissionModel {
        match self {
            Submission::Pending => SubmissionModel::Pending,
            Submission::Queued { correlation } => SubmissionModel::Queued {
                correlation: correlation@,
            },
            Submission::Collected { artifacts } => SubmissionModel::Collected {
                artifacts: artifacts@,
            },
            Submission::Failed { error } => SubmissionModel::Failed { error: error@ },
        }
    }
}

/// What the backend, or the connection to it, reports.
#[derive(Debug, PartialEq, Eq)]
pub enum BackendEvent {
    /// The backend accepted a submission and named it `correlation`.
    Accepted { correlation: String },
    /// The submission did not get through, or the backend refused it.
    Refused { error: GenerationError },
    /// The submission named `correlation` completed with `artifacts`.
    Completed { correlation: String, artifacts: ArtifactSet },
    /// The submission named `correlation` ended with `error`.
    Failed { correlation: String, error: GenerationError },
}

/// A `BackendEvent` as a mathematical value.
pub enum BackendEventModel {
    Accepted { correlation: Seq<char> },
    Refused { error: ErrorModel },
    Completed { correlation: Seq<char>, artifacts: Seq<(Seq<char>, Seq<u8>)> },
    Failed { correlation: Seq<char>, error: ErrorModel },
}

impl View for BackendEvent {
    type V = BackendEventModel;

    open spec fn view(&self) -> BackendEventModel {
        match self {
            BackendEvent::Accepted { correlation } => BackendEventModel::Accepted {
                correlation: correlation@,
            },
            BackendEvent::Refused { error } => BackendEventModel::Refused { error: error@ },
            BackendEvent::Completed { correlation, artifacts } => BackendEventModel::Completed {
                correlation: correlation@,
                artifacts: artifacts@,
            },
            BackendEvent::Failed { correlation, error } => BackendEventModel::Failed {
                correlation: correlation@,
                error: error@,
            },
        }
    }
}

/// The submission after an event.
///
/// A pending submission becomes queued when it is accepted and fails when
/// it is refused. A queued submission ends with the completion or the
/// failure that is reported under its own identifier. Every other event
/// leaves the submission as it is.
pub open spec fn after(state: SubmissionModel, event: BackendEventModel) -> SubmissionModel {
    match (state, event) {
        (SubmissionModel::Pending, BackendEventModel::Accepted { correlation }) => {
            SubmissionModel::Queued { correlation }
        },
        (SubmissionModel::Pending, BackendEventModel::Refused { error }) => {
            SubmissionModel::Failed { error }
        },
        (
            SubmissionModel::Queued { correlation: own },
            BackendEventModel::Completed { correlation, artifacts },
        ) => if correlation == own {
            SubmissionModel::Collected { artifacts }
        } else {
            state
        },
        (
            SubmissionModel::Queued { correlation: own },
            BackendEventModel::Failed { correlation, error },
        ) => if correlation == own {
            SubmissionModel::Failed { error }
        } else {
            state
        },
        _ => state,
    }
}

/// The submission after a sequence of events, first to last.
pub open spec fn after_all(state: SubmissionModel, events: Seq<BackendEventModel>) -> SubmissionModel
    decreases events.len(),
{
    if events.len() == 0 {
        state
    } else {
        after_all(after(state, events[0]), events.drop_first())
    }
}

/// A submission that reached its end.
pub open spec fn is_settled(state: SubmissionModel) -> bool {
    state is Collected || state is Failed
}

/// The identifier under which an event is reported, if it has one.
pub open spec fn correlation_of(event: BackendEventModel) -> Option<Seq<char>> {
    match event {
        BackendEventModel::Completed { correlation, .. } => Some(correlation),
        BackendEventModel::Failed { correlation, .. } => Some(correlation),
        _ => None,
    }
}

/// A queued submission ignores whatever is reported under another
/// identifier.
pub proof fn lemma_foreign_report_is_ignored(own: Seq<char>, event: BackendEventModel)
    requires
        correlation_of(event) matches Some(other) && other != own,
    ensures
        after(SubmissionModel::Queued { correlation: own }, event) == (SubmissionModel::Queued {
            correlation: own,
        }),
{
}

/// A settled submission stays as it is, whatever is reported.
pub proof fn lemma_settled_stays(state: SubmissionModel, events: Seq<BackendEventModel>)
    requires
        is_settled(state),
    ensures
        after_all(state, events) == state,
    decreases events.len(),
{
    if events.len() > 0 {
        lemma_settled_stays(state, events.drop_first());
    }
}

/// Reports under other identifiers, in any number and before or after its
/// own completion, do not reach a queued submission: it ends with exactly
/// the artifacts that were reported under its own identifier.
pub proof fn lemma_submissions_keep_apart(
    own: Seq<char>,
    artifacts: Seq<(Seq<char>, Seq<u8>)>,
    before: Seq<BackendEventModel>,
    later: Seq<BackendEventModel>,
)
    requires
        forall|i: int|
            0 <= i < before.len() ==> (correlation_of(#[trigger] before[i]) matches Some(other)
                && other != own),
    ensures
        after_all(
            SubmissionModel::Queued { correlation: own },
            before + seq![BackendEventModel::Completed { correlation: own, artifacts }] + later,
        ) == (SubmissionModel::Collected { artifacts }),
    decreases before.len(),
{
    let start = SubmissionModel::Queued { correlation: own };
    let completion = BackendEventModel::Completed { correlation: own, artifacts };
    let events = before + seq![completion] + later;
    if before.len() == 0 {
        assert(events[0] == completion);
        assert(events.drop_first() =~= later);
        lemma_settled_stays(SubmissionModel::Collected { artifacts }, later);
    } else {
        assert(events[0] == before[0]);
        lemma_foreign_report_is_ignored(own, before[0]);
        assert(events.drop_first() =~= before.drop_first() + seq![completion] + later);
        assert forall|i: int| 0 <= i < before.drop_first().len() implies (correlation_of(
            #[trigger] before.drop_first()[i],
        ) matches Some(other) && other != own) by {
            assert(before.drop_first()[i] == before[i + 1]);
        }
        lemma_submissions_keep_apart(own, artifacts, before.drop_first(), later);
    }
}

/// Takes an event into account.
pub fn advance(state: Submission, event: BackendEvent) -> (next: Submission)
    ensures
        next@ == after(state@, event@),
{
    match state {
        Submission::Pending => match event {
            BackendEvent::Accepted { correlation } => Submission::Queued { correlation },
            BackendEvent::Refused { error } => Submission::Failed { error },
            _ => Submission::Pending,
        },
        Submission::Queued { correlation: own } => match event {
            BackendEvent::Completed { correlation, artifacts } => {
                if same_text(correlation.as_str(), own.as_str()) {
                    Submission::Collected { artifacts }
                } else {
                    Submission::Queued { correlation: own }
                }
            },
            BackendEvent::Failed { correlation, error } => {
                if same_text(correlation.as_str(), own.as_str()) {
                    Submission::Failed { error }
                } else {
                    Submission::Queued { correlation: own }
                }
            },
            _ => Submission::Queued { correlation: own },
        },
        settled => settled,
    }
}

/// The kind of an answer with an HTTP status that is not a success.
pub const KIND_HTTP: &'static str = "http";

/// The kind of a graph that the backend refused node by node.
pub const KIND_NODE_ERRORS: &'static str = "node_errors";

/// The kind of an error that the backend met while executing the graph.
pub const KIND_GENERATION_FAILED: &'static str = "generation_failed";

/// The kind of a wait that ran out of time.
pub const KIND_TIMEOUT: &'static str = "timeout";

/// The error that a failure of the given kind, reported in the given
/// words, stands for.
///
/// A refusal by status or by node is `BackendRejected`, a failure during
/// execution `ExecutionFailed`, a wait that ran out `TimedOut`; the
/// report is kept word for word. Everything else means that the exchange
/// with the backend did not work: `BackendUnreachable`.
pub open spec fn classified(kind: Seq<char>, report: Seq<char>) -> ErrorModel {
    if kind == KIND_HTTP@ || kind == KIND_NODE_ERRORS@ {
        ErrorModel::BackendRejected { payload: report }
    } else if kind == KIND_GENERATION_FAILED@ {
        ErrorModel::ExecutionFailed { payload: report }
    } else if kind == KIND_TIMEOUT@ {
        ErrorModel::TimedOut
    } else {
        ErrorModel::BackendUnreachable { cause: report }
    }
}

/// The error that a failure of the given kind, reported in the given
/// words, stands for.
pub fn classify(kind: &str, report: String) -> (error: GenerationError)
    ensures
        error@ == classified(kind@, report@),
{
    if same_text(kind, KIND_HTTP) || same_text(kind, KIND_NODE_ERRORS) {
        GenerationError::BackendRejected { payload: report }
    } else if same_text(kind, KIND_GENERATION_FAILED) {
        GenerationError::ExecutionFailed { payload: report }
    } else if same_text(kind, KIND_TIMEOUT) {
        GenerationError::TimedOut
    } else {
        GenerationError::BackendUnreachable { cause: report }
    }
}

} // verus!
