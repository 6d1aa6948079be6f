use image_job::artifacts::ArtifactSet;
use image_job::error::GenerationError;
use image_job::job::{Action, Event, Job, JobContext, JobState, Placeholder, Transition};
use image_job::template::GenerationTemplate;

const GRAPH: &str = r#"{
  "16": { "class_type": "CLIPTextEncode", "inputs": { "text": "" } },
  "3": { "class_type": "KSampler", "inputs": { "seed": 0, "steps": 28 } }
}"#;

const BROKEN_GRAPH: &str = r#"{
  "16": { "class_type": "CLIPTextEncode", "inputs": {} },
  "3": { "class_type": "KSampler", "inputs": { "seed": 0 } }
}"#;

fn template() -> GenerationTemplate {
    GenerationTemplate::load(GRAPH).unwrap()
}

fn command(argument: &str) -> Event {
    Event::Command { chat: 7, message: 42, argument: argument.to_string() }
}

fn artifacts(entries: Vec<(&str, Vec<u8>)>) -> ArtifactSet {
    let mut set = ArtifactSet::new();
    for (name, bytes) in entries {
        set.insert(name.to_string(), bytes);
    }
    set
}

fn awaiting_generation(template: &GenerationTemplate, prompt: &str) -> (Job, Vec<Action>) {
    let mut history = Vec::new();
    let Transition { job, actions } = Job::new().step(command(prompt), template);
    history.extend(actions);
    let Transition { job, actions } =
        job.step_with_seed(Event::PlaceholderShown { message: 43, at: 1000 }, template, 99);
    history.extend(actions);
    (job, history)
}

fn count(history: &[Action], wanted: fn(&Action) -> bool) -> usize {
    history.iter().filter(|action| wanted(action)).count()
}

fn is_photo(action: &Action) -> bool {
    matches!(action, Action::SendPhoto { .. })
}

fn is_removal(action: &Action) -> bool {
    matches!(action, Action::RemovePlaceholder { .. })
}

fn is_rewrite(action: &Action) -> bool {
    matches!(action, Action::RewritePlaceholder { .. })
}

fn is_submission(action: &Action) -> bool {
    matches!(action, Action::Generate { .. })
}

fn is_placeholder(action: &Action) -> bool {
    matches!(action, Action::ShowPlaceholder { .. })
}

fn is_hint(action: &Action) -> bool {
    matches!(action, Action::SendHint { .. })
}

#[test]
fn a_new_job_has_received_nothing() {
    let job = Job::new();
    assert_eq!(*job.state(), JobState::Received);
    assert!(!job.ended());
}

#[test]
fn receive_trims_the_prompt() {
    let job = Job::receive(7, 42, "  a red fox \n");
    assert_eq!(
        *job.state(),
        JobState::Validating {
            context: JobContext { chat: 7, command: 42, placeholder: None },
            prompt: "a red fox".to_string(),
        }
    );
}

#[test]
fn validate_fails_a_job_without_a_prompt() {
    let next = Job::receive(7, 42, " \t ").validate();
    assert_eq!(*next.job.state(), JobState::Failed { error: GenerationError::EmptyPrompt });
    assert_eq!(
        next.actions,
        vec![Action::SendHint { chat: 7, text: "Please provide a prompt".to_string() }]
    );
}

#[test]
fn validate_leaves_other_states_alone() {
    let next = Job::new().validate();
    assert_eq!(*next.job.state(), JobState::Received);
    assert_eq!(next.actions, vec![]);
}

#[test]
fn an_empty_prompt_ends_the_job_with_a_hint() {
    for argument in ["", " ", "\t\n", " \u{a0}\u{3000} "] {
        let next = Job::new().step(command(argument), &template());
        assert_eq!(*next.job.state(), JobState::Failed { error: GenerationError::EmptyPrompt });
        assert_eq!(
            next.actions,
            vec![Action::SendHint { chat: 7, text: "Please provide a prompt".to_string() }]
        );
        assert!(next.job.ended());
    }
}

#[test]
fn an_empty_prompt_never_reaches_the_generation_client() {
    let template = template();
    let mut history = Vec::new();
    let Transition { mut job, actions } = Job::new().step(command("   "), &template);
    history.extend(actions);
    let later = vec![
        Event::PlaceholderShown { message: 43, at: 5 },
        Event::GenerationFinished { outcome: Ok(artifacts(vec![("a", vec![1])])), at: 9 },
        Event::DeliveryConfirmed,
        command("a red fox"),
    ];
    for event in later {
        let next = job.step(event, &template);
        job = next.job;
        history.extend(next.actions);
    }
    assert_eq!(count(&history, is_submission), 0);
    assert_eq!(count(&history, is_placeholder), 0);
    assert_eq!(count(&history, is_hint), 1);
    assert_eq!(history.len(), 1);
}

#[test]
fn a_prompt_puts_up_the_placeholder_silently_as_a_reply() {
    let next = Job::new().step(command("  a red fox "), &template());
    assert_eq!(
        *next.job.state(),
        JobState::AwaitingGeneration {
            context: JobContext { chat: 7, command: 42, placeholder: None },
            prompt: "a red fox".to_string(),
        }
    );
    assert_eq!(
        next.actions,
        vec![Action::ShowPlaceholder {
            chat: 7,
            reply_to: 42,
            text: "Generating image...".to_string(),
            silent: true,
        }]
    );
}

#[test]
fn the_placeholder_starts_the_generation() {
    let template = template();
    let first = Job::new().step(command("a red fox"), &template);
    let next =
        first.job.step_with_seed(Event::PlaceholderShown { message: 43, at: 1000 }, &template, 99);
    assert_eq!(
        *next.job.state(),
        JobState::AwaitingGeneration {
            context: JobContext {
                chat: 7,
                command: 42,
                placeholder: Some(Placeholder { message: 43, since: 1000 }),
            },
            prompt: "a red fox".to_string(),
        }
    );
    assert_eq!(next.actions.len(), 2);
    assert_eq!(next.actions[0], Action::ShowTyping { chat: 7 });
    match &next.actions[1] {
        Action::Generate { request } => {
            assert_eq!(request.prompt(), "a red fox");
            assert_eq!(request.seed(), "99");
        }
        other => panic!("{:?}", other),
    }
}

#[test]
fn step_draws_the_seed_of_the_request() {
    let template = template();
    let first = Job::new().step(command("a red fox"), &template);
    let next = first.job.step(Event::PlaceholderShown { message: 43, at: 1000 }, &template);
    match &next.actions[1] {
        Action::Generate { request } => {
            assert_eq!(request.prompt(), "a red fox");
            let _: u64 = request.seed().parse().unwrap();
        }
        other => panic!("{:?}", other),
    }
}

#[test]
fn a_successful_run_sends_one_photo_and_removes_the_placeholder_once() {
    let template = template();
    let (job, mut history) = awaiting_generation(&template, " a red fox ");
    let outcome = Ok(artifacts(vec![("9", vec![]), ("10", vec![1, 2, 3]), ("11", vec![4])]));
    let next = job.step(Event::GenerationFinished { outcome, at: 2005 }, &template);
    assert_eq!(
        *next.job.state(),
        JobState::Completing {
            context: JobContext {
                chat: 7,
                command: 42,
                placeholder: Some(Placeholder { message: 43, since: 1000 }),
            },
        }
    );
    assert_eq!(
        next.actions,
        vec![
            Action::ShowUploading { chat: 7 },
            Action::SendPhoto {
                chat: 7,
                reply_to: 42,
                image: vec![1, 2, 3],
                caption: "a red fox | Generated image in 1.01s".to_string(),
            },
            Action::RemovePlaceholder { chat: 7, message: 43 },
        ]
    );
    history.extend(next.actions);
    let last = next.job.step(Event::DeliveryConfirmed, &template);
    assert_eq!(*last.job.state(), JobState::Delivered);
    assert!(last.job.ended());
    history.extend(last.actions);
    assert_eq!(count(&history, is_placeholder), 1);
    assert_eq!(count(&history, is_submission), 1);
    assert_eq!(count(&history, is_photo), 1);
    assert_eq!(count(&history, is_removal), 1);
    assert_eq!(count(&history, is_rewrite), 0);
    assert_eq!(count(&history, is_hint), 0);
}

#[test]
fn a_failing_run_rewrites_the_placeholder_once_and_sends_no_photo() {
    let template = template();
    let (job, mut history) = awaiting_generation(&template, "a red fox");
    let outcome = Err(GenerationError::BackendUnreachable { cause: "connection refused".to_string() });
    let next = job.step(Event::GenerationFinished { outcome, at: 1500 }, &template);
    assert_eq!(
        *next.job.state(),
        JobState::Failed {
            error: GenerationError::BackendUnreachable { cause: "connection refused".to_string() },
        }
    );
    assert_eq!(
        next.actions,
        vec![
            Action::ShowUploading { chat: 7 },
            Action::RewritePlaceholder {
                chat: 7,
                message: 43,
                text: "Failed to generate image: connection refused".to_string(),
            },
        ]
    );
    history.extend(next.actions);
    let last = next.job.step(Event::DeliveryConfirmed, &template);
    history.extend(last.actions);
    assert_eq!(count(&history, is_placeholder), 1);
    assert_eq!(count(&history, is_rewrite), 1);
    assert_eq!(count(&history, is_photo), 0);
    assert_eq!(count(&history, is_removal), 0);
    assert_eq!(count(&history, is_hint), 0);
}

#[test]
fn a_run_without_an_image_fails_with_no_image_produced() {
    let template = template();
    for set in [artifacts(vec![]), artifacts(vec![("9", vec![]), ("10", vec![])])] {
        let (job, _) = awaiting_generation(&template, "a red fox");
        let next = job.step(Event::GenerationFinished { outcome: Ok(set), at: 1500 }, &template);
        assert_eq!(*next.job.state(), JobState::Failed { error: GenerationError::NoImageProduced });
        assert_eq!(
            next.actions,
            vec![
                Action::ShowUploading { chat: 7 },
                Action::RewritePlaceholder {
                    chat: 7,
                    message: 43,
                    text: "Failed to generate image: the backend produced no image".to_string(),
                },
            ]
        );
    }
}

#[test]
fn a_malformed_template_fails_the_job_over_the_placeholder() {
    let template = GenerationTemplate::load(BROKEN_GRAPH).unwrap();
    let first = Job::new().step(command("a red fox"), &template);
    let next = first.job.step(Event::PlaceholderShown { message: 43, at: 1000 }, &template);
    assert_eq!(*next.job.state(), JobState::Failed { error: GenerationError::MalformedTemplate });
    assert_eq!(
        next.actions,
        vec![Action::RewritePlaceholder {
            chat: 7,
            message: 43,
            text: "Failed to generate image: the generation template is malformed".to_string(),
        }]
    );
}

#[test]
fn a_clock_that_went_back_counts_as_no_time() {
    let template = template();
    let (job, _) = awaiting_generation(&template, "a red fox");
    let outcome = Ok(artifacts(vec![("10", vec![1])]));
    let next = job.step(Event::GenerationFinished { outcome, at: 10 }, &template);
    match &next.actions[1] {
        Action::SendPhoto { caption, .. } => {
            assert_eq!(caption, "a red fox | Generated image in 0.00s")
        }
        other => panic!("{:?}", other),
    }
}

#[test]
fn events_that_a_state_does_not_wait_for_change_nothing() {
    let template = template();
    let next = Job::new().step(Event::DeliveryConfirmed, &template);
    assert_eq!(*next.job.state(), JobState::Received);
    assert_eq!(next.actions, vec![]);

    let first = Job::new().step(command("a red fox"), &template);
    let outcome = Ok(artifacts(vec![("10", vec![1])]));
    let next = first.job.step(Event::GenerationFinished { outcome, at: 10 }, &template);
    assert!(matches!(next.job.state(), JobState::AwaitingGeneration { .. }));
    assert_eq!(next.actions, vec![]);

    let (job, _) = awaiting_generation(&template, "a red fox");
    let next = job.step(Event::PlaceholderShown { message: 44, at: 2000 }, &template);
    assert_eq!(
        *next.job.state(),
        JobState::AwaitingGeneration {
            context: JobContext {
                chat: 7,
                command: 42,
                placeholder: Some(Placeholder { message: 43, since: 1000 }),
            },
            prompt: "a red fox".to_string(),
        }
    );
    assert_eq!(next.actions, vec![]);
    let next = next.job.step(command("another"), &template);
    assert_eq!(next.actions, vec![]);
}

#[test]
fn an_ended_job_takes_no_further_step() {
    let template = template();
    let (job, _) = awaiting_generation(&template, "a red fox");
    let outcome = Err(GenerationError::TimedOut);
    let failed = job.step(Event::GenerationFinished { outcome, at: 1500 }, &template).job;
    let next = failed.step(command("again"), &template);
    assert_eq!(*next.job.state(), JobState::Failed { error: GenerationError::TimedOut });
    assert_eq!(next.actions, vec![]);
}
