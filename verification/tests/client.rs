use image_job::artifacts::ArtifactSet;
use image_job::client::{advance, classify, BackendEvent, Submission};
use image_job::error::GenerationError;

fn image(name: &str, bytes: Vec<u8>) -> ArtifactSet {
    let mut set = ArtifactSet::new();
    set.insert(name.to_string(), bytes);
    set
}

fn queued(correlation: &str) -> Submission {
    advance(Submission::Pending, BackendEvent::Accepted { correlation: correlation.to_string() })
}

fn completed(correlation: &str, artifacts: ArtifactSet) -> BackendEvent {
    BackendEvent::Completed { correlation: correlation.to_string(), artifacts }
}

#[test]
fn an_accepted_submission_is_queued_under_its_identifier() {
    assert_eq!(queued("a"), Submission::Queued { correlation: "a".to_string() });
}

#[test]
fn a_refused_submission_fails() {
    let error = GenerationError::BackendRejected { payload: "bad graph".to_string() };
    let next = advance(Submission::Pending, BackendEvent::Refused { error });
    assert_eq!(
        next,
        Submission::Failed { error: GenerationError::BackendRejected { payload: "bad graph".to_string() } }
    );
}

#[test]
fn a_queued_submission_collects_its_own_artifacts() {
    let next = advance(queued("a"), completed("a", image("9", vec![1, 2])));
    assert_eq!(next, Submission::Collected { artifacts: image("9", vec![1, 2]) });
}

#[test]
fn a_queued_submission_fails_with_its_own_failure() {
    let event = BackendEvent::Failed { correlation: "a".to_string(), error: GenerationError::TimedOut };
    assert_eq!(advance(queued("a"), event), Submission::Failed { error: GenerationError::TimedOut });
    let event = BackendEvent::Failed { correlation: "b".to_string(), error: GenerationError::TimedOut };
    assert_eq!(advance(queued("a"), event), queued("a"));
}

#[test]
fn concurrent_submissions_get_their_own_artifacts_whatever_the_order() {
    let of_a = || completed("a", image("9", vec![0xA]));
    let of_b = || completed("b", image("9", vec![0xB]));

    let mut a = queued("a");
    let mut b = queued("b");
    for event in [of_b(), of_a()] {
        a = advance(a, event);
    }
    for event in [of_b(), of_a()] {
        b = advance(b, event);
    }
    assert_eq!(a, Submission::Collected { artifacts: image("9", vec![0xA]) });
    assert_eq!(b, Submission::Collected { artifacts: image("9", vec![0xB]) });

    let mut a = queued("a");
    let mut b = queued("b");
    for event in [of_a(), of_b()] {
        a = advance(a, event);
    }
    for event in [of_a(), of_b()] {
        b = advance(b, event);
    }
    assert_eq!(a, Submission::Collected { artifacts: image("9", vec![0xA]) });
    assert_eq!(b, Submission::Collected { artifacts: image("9", vec![0xB]) });
}

#[test]
fn a_pending_submission_takes_no_completion() {
    let next = advance(Submission::Pending, completed("a", image("9", vec![1])));
    assert_eq!(next, Submission::Pending);
}

#[test]
fn a_settled_submission_stays_as_it_is() {
    let collected = advance(queued("a"), completed("a", image("9", vec![1])));
    let next = advance(collected, completed("a", image("9", vec![2])));
    assert_eq!(next, Submission::Collected { artifacts: image("9", vec![1]) });
    let next = advance(next, BackendEvent::Accepted { correlation: "c".to_string() });
    assert_eq!(next, Submission::Collected { artifacts: image("9", vec![1]) });
}

#[test]
fn classify_files_every_kind_of_failure() {
    let report = || "the report".to_string();
    assert_eq!(
        classify("network", report()),
        GenerationError::BackendUnreachable { cause: report() }
    );
    assert_eq!(classify("http", report()), GenerationError::BackendRejected { payload: report() });
    assert_eq!(
        classify("node_errors", report()),
        GenerationError::BackendRejected { payload: report() }
    );
    assert_eq!(
        classify("generation_failed", report()),
        GenerationError::ExecutionFailed { payload: report() }
    );
    assert_eq!(classify("timeout", report()), GenerationError::TimedOut);
    assert_eq!(
        classify("invalid_response", report()),
        GenerationError::BackendUnreachable { cause: report() }
    );
    assert_eq!(classify("", report()), GenerationError::BackendUnreachable { cause: report() });
}
