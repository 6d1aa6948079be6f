//! The job that one command starts, as a state machine.
//!
//! The machine decides; the caller acts. Every step takes the event that
//! just happened and answers with the next state and the actions to carry
//! out, in order. The caller sends the messages, talks to the backend,
//! reads the clock, and reports back what came of it.

use vstd::prelude::*;
use crate::artifacts::{select, selected, ArtifactSet};
use crate::caption::{
    caption,
    caption_text,
    failure_notice,
    failure_text,
    PLACEHOLDER_TEXT,
    USAGE_HINT,
};
use crate::document::DocumentModel;
use crate::error::{ErrorModel, GenerationError};
use crate::request::{build_with_seed, derived, draw_seed, GenerationRequest};
use crate::template::{is_complete, GenerationTemplate};
use crate::text::{is_trimmed, lemma_trimmed, trim, trimmed};

verus! {

/// The notice that the backend is at work, as the requester sees it.
#[derive(Debug, Clone, Copy, PartialEq, Eq)]
pub struct Placeholder {
    /// The message that shows the notice.
    pub message: i32,
    /// When the notice went up, in milliseconds on the caller's clock. The
    /// time that a generation took is counted from here.
    pub since: u64,
}

/// What a job remembers of the command that started it.
#[derive(Debug, Clone, Copy, PartialEq, Eq)]
pub struct JobContext {
    /// The conversation in which the command came.
    pub chat: i64,
    /// The message that carried the command.
    pub command: i32,
    /// The notice that the backend is at work, once it is up.
    pub placeholder: Option<Placeholder>,
}

/// The states of a job.
#[derive(Debug, PartialEq, Eq)]
pub enum JobState {
    /// Nothing has been looked at yet.
    Received,
    /// The prompt has been taken from the command and trimmed.
    Validating { context: JobContext, prompt: String },
    /// The prompt is in order; the image is being made.
    AwaitingGeneration { context: JobContext, prompt: String },
    /// The image is on its way to the requester.
    Completing { context: JobContext },
    /// The requester has the image.
    Delivered,
    /// The job ended without an image.
    Failed { error: GenerationError },
}

/// A `JobState` as a mathematical value.
pub enum StateModel {
    Received,
    Validating { context: JobContext, prompt: Seq<char> },
    AwaitingGeneration { context: JobContext, prompt: Seq<char> },
    Completing { context: JobContext },
    Delivered,
    Failed { error: ErrorModel },
}

impl View for JobState {
    type V = StateModel;

    open spec fn view(&self) -> StateModel {
        match self {
            JobState::Received => StateModel::Received,
            JobState::Validating { context, prompt } => StateModel::Validating {
                context: *context,
                prompt: prompt@,
            },
            JobState::AwaitingGeneration { context, prompt } => StateModel::AwaitingGeneration {
                context: *context,
                prompt: prompt@,
            },
            JobState::Completing { context } => StateModel::Completing { context: *context },
            JobState::Delivered => StateModel::Delivered,
            JobState::Failed { error } => StateModel::Failed { error: error@ },
        }
    }
}

/// What happens to a job.
#[derive(Debug, PartialEq, Eq)]
pub enum Event {
    /// The command arrived in `chat` as `message`, with `argument` behind
    /// the command word.
    Command { chat: i64, message: i32, argument: String },
    /// The placeholder went up as `message`, at time `at`.
    PlaceholderShown { message: i32, at: u64 },
    /// The generation client returned, at time `at`.
    GenerationFinished { outcome: Result<ArtifactSet, GenerationError>, at: u64 },
    /// The image reached the requester and the placeholder is gone.
    DeliveryConfirmed,
}

/// An `Event` as a mathematical value.
pub enum EventModel {
    Command { chat: i64, message: i32, argument: Seq<char> },
    PlaceholderShown { message: i32, at: u64 },
    GenerationFinished { outcome: Result<Seq<(Seq<char>, Seq<u8>)>, ErrorModel>, at: u64 },
    DeliveryConfirmed,
}

impl View for Event {
    type V = EventModel;

    open spec fn view(&self) -> EventModel {
        match self {
            Event::Command { chat, message, argument } => EventModel::Command {
                chat: *chat,
                message: *message,
                argument: argument@,
            },
            Event::PlaceholderShown { message, at } => EventModel::PlaceholderShown {
                message: *message,
                at: *at,
            },
            Event::GenerationFinished { outcome, at } => EventModel::GenerationFinished {
                outcome: match outcome {
                    Ok(artifacts) => Ok(artifacts@),
                    Err(error) => Err(error@),
                },
                at: *at,
            },
            Event::DeliveryConfirmed => EventModel::DeliveryConfirmed,
        }
    }
}

/// What the caller is asked to do.
#[derive(Debug, PartialEq, Eq)]
pub enum Action {
    /// Tell the requester how to use the command.
    SendHint { chat: i64, text: String },
    /// Put up the placeholder as a reply to the command, without an alert
    /// if `silent`, and report `PlaceholderShown`.
    ShowPlaceholder { chat: i64, reply_to: i32, text: String, silent: bool },
    /// Show that an answer is being written.
    ShowTyping { chat: i64 },
    /// Hand the request to the generation client and report
    /// `GenerationFinished`.
    Generate { request: GenerationRequest },
    /// Show that a photo is being uploaded.
    ShowUploading { chat: i64 },
    /// Send the image as a reply to the command.
    SendPhoto { chat: i64, reply_to: i32, image: Vec<u8>, caption: String },
    /// Take the placeholder down and report `DeliveryConfirmed`.
    RemovePlaceholder { chat: i64, message: i32 },
    /// Write `text` over the placeholder.
    RewritePlaceholder { chat: i64, message: i32, text: String },
}

/// An `Action` as a mathematical value.
pub enum ActionModel {
    SendHint { chat: i64, text: Seq<char> },
    ShowPlaceholder { chat: i64, reply_to: i32, text: Seq<char>, silent: bool },
    ShowTyping { chat: i64 },
    Generate { request: DocumentModel },
    ShowUploading { chat: i64 },
    SendPhoto { chat: i64, reply_to: i32, image: Seq<u8>, caption: Seq<char> },
    RemovePlaceholder { chat: i64, message: i32 },
    RewritePlaceholder { chat: i64, message: i32, text: Seq<char> },
}

impl View for Action {
    type V = ActionModel;

    open spec fn view(&self) -> ActionModel {
        match self {
            Action::SendHint { chat, text } => ActionModel::SendHint { chat: *chat, text: text@ },
            Action::ShowPlaceholder { chat, reply_to, text, silent } => {
                ActionModel::ShowPlaceholder {
                    chat: *chat,
                    reply_to: *reply_to,
                    text: text@,
                    silent: *silent,
                }
            },
            Action::ShowTyping { chat } => ActionModel::ShowTyping { chat: *chat },
            Action::Generate { request } => ActionModel::Generate { request: request@ },
            Action::ShowUploading { chat } => ActionModel::ShowUploading { chat: *chat },
            Action::SendPhoto { chat, reply_to, image, caption } => ActionModel::SendPhoto {
                chat: *chat,
                reply_to: *reply_to,
                image: image@,
                caption: caption@,
            },
            Action::RemovePlaceholder { chat, message } => ActionModel::RemovePlaceholder {
                chat: *chat,
                message: *message,
            },
            Action::RewritePlaceholder { chat, message, text } => ActionModel::RewritePlaceholder {
                chat: *chat,
                message: *message,
                text: text@,
            },
        }
    }
}

/// A list of actions as mathematical values.
pub open spec fn actions_model(actions: Seq<Action>) -> Seq<ActionModel> {
    Seq::new(actions.len(), |i: int| actions[i]@)
}

/// The next state and the actions to carry out, in order.
pub struct Outcome {
    pub state: StateModel,
    pub actions: Seq<ActionModel>,
}

/// A state that a job can be in: a prompt is always trimmed, a job that
/// awaits its image has a prompt, and an image on its way replaces a
/// placeholder that is up.
pub open spec fn well_formed(state: StateModel) -> bool {
    match state {
        StateModel::Validating { context, prompt } => context.placeholder.is_none() && is_trimmed(
            prompt,
        ),
        StateModel::AwaitingGeneration { context, prompt } => is_trimmed(prompt) && prompt.len()
            > 0,
        StateModel::Completing { context } => context.placeholder.is_some(),
        _ => true,
    }
}

/// A state in which a job has ended.
pub open spec fn is_terminal(state: StateModel) -> bool {
    state is Delivered || state is Failed
}

/// The state stays, and nothing is to be done.
pub open spec fn stay(state: StateModel) -> Outcome {
    Outcome { state, actions: Seq::empty() }
}

/// From `Received` to `Validating`: the prompt is the argument of the
/// command, trimmed.
pub open spec fn received(chat: i64, message: i32, argument: Seq<char>) -> StateModel {
    StateModel::Validating {
        context: JobContext { chat, command: message, placeholder: None },
        prompt: trimmed(argument),
    }
}

/// Out of `Validating`: without a prompt the job fails at once with a hint
/// to the requester, and no placeholder is shown; with a prompt the
/// placeholder is put up, silently and as a reply to the command.
pub open spec fn validated(context: JobContext, prompt: Seq<char>) -> Outcome {
    if prompt.len() == 0 {
        Outcome {
            state: StateModel::Failed { error: ErrorModel::EmptyPrompt },
            actions: seq![ActionModel::SendHint { chat: context.chat, text: USAGE_HINT@ }],
        }
    } else {
        Outcome {
            state: StateModel::AwaitingGeneration { context, prompt },
            actions: seq![
                ActionModel::ShowPlaceholder {
                    chat: context.chat,
                    reply_to: context.command,
                    text: PLACEHOLDER_TEXT@,
                    silent: true,
                },
            ],
        }
    }
}

/// Out of `Validating`, whatever the state holds; any other state stays.
pub open spec fn validation_of(state: StateModel) -> Outcome {
    match state {
        StateModel::Validating { context, prompt } => validated(context, prompt),
        _ => stay(state),
    }
}

/// Once the placeholder is up: the clock starts, and the request derived
/// from the template goes to the generation client. A template that lacks
/// a field ends the job; the placeholder then shows the failure.
pub open spec fn submitted(
    context: JobContext,
    prompt: Seq<char>,
    placeholder: Placeholder,
    template: DocumentModel,
    seed: u64,
) -> Outcome {
    if is_complete(template) {
        Outcome {
            state: StateModel::AwaitingGeneration {
                context: JobContext {
                    chat: context.chat,
                    command: context.command,
                    placeholder: Some(placeholder),
                },
                prompt,
            },
            actions: seq![
                ActionModel::ShowTyping { chat: context.chat },
                ActionModel::Generate { request: derived(template, prompt, seed) },
            ],
        }
    } else {
        Outcome {
            state: StateModel::Failed { error: ErrorModel::MalformedTemplate },
            actions: seq![
                ActionModel::RewritePlaceholder {
                    chat: context.chat,
                    message: placeholder.message,
                    text: failure_text(ErrorModel::MalformedTemplate),
                },
            ],
        }
    }
}

/// The milliseconds from `since` to `at`; none if the clock went back.
pub open spec fn elapsed_between(since: u64, at: u64) -> nat {
    if at >= since {
        (at - since) as nat
    } else {
        0
    }
}

/// The end of a job whose placeholder is rewritten with the failure.
pub open spec fn failed(context: JobContext, placeholder: Placeholder, error: ErrorModel) -> Outcome {
    Outcome {
        state: StateModel::Failed { error },
        actions: seq![
            ActionModel::ShowUploading { chat: context.chat },
            ActionModel::RewritePlaceholder {
                chat: context.chat,
                message: placeholder.message,
                text: failure_text(error),
            },
        ],
    }
}

/// Once the generation client has returned: the first artifact that is not
/// empty is sent as a reply to the command, captioned with the prompt and
/// the time since the placeholder went up, and the placeholder is taken
/// down. An error of the client, or a set without an image, ends the job;
/// the placeholder then shows the failure.
pub open spec fn finished(
    context: JobContext,
    prompt: Seq<char>,
    placeholder: Placeholder,
    outcome: Result<Seq<(Seq<char>, Seq<u8>)>, ErrorModel>,
    at: u64,
) -> Outcome {
    match outcome {
        Ok(artifacts) => match selected(artifacts) {
            Some(image) => Outcome {
                state: StateModel::Completing { context },
                actions: seq![
                    ActionModel::ShowUploading { chat: context.chat },
                    ActionModel::SendPhoto {
                        chat: context.chat,
                        reply_to: context.command,
                        image,
                        caption: caption(prompt, elapsed_between(placeholder.since, at)),
                    },
                    ActionModel::RemovePlaceholder {
                        chat: context.chat,
                        message: placeholder.message,
                    },
                ],
            },
            None => failed(context, placeholder, ErrorModel::NoImageProduced),
        },
        Err(error) => failed(context, placeholder, error),
    }
}

/// The step that `state` takes on `event`.
///
/// A command takes the job through `Validating` to failure or to waiting
/// for the image. The placeholder going up starts the generation, the return of the generation client starts the delivery,
/// and the confirmed delivery ends the job. An event that the state does
/// not wait for changes nothing and asks for nothing.
///
/// `seed` is the seed of the request; it matters to the step that submits.
pub open spec fn transition(
    state: StateModel,
    event: EventModel,
    template: DocumentModel,
    seed: u64,
) -> Outcome {
    match state {
        StateModel::Received => match event {
            EventModel::Command { chat, message, argument } => validation_of(
                received(chat, message, argument),
            ),
            _ => stay(state),
        },
        StateModel::AwaitingGeneration { context, prompt } => match event {
            EventModel::PlaceholderShown { message, at } => if context.placeholder.is_none() {
                submitted(context, prompt, Placeholder { message, since: at }, template, seed)
            } else {
                stay(state)
            },
            EventModel::GenerationFinished { outcome, at } => match context.placeholder {
                Some(placeholder) => finished(context, prompt, placeholder, outcome, at),
                None => stay(state),
            },
            _ => stay(state),
        },
        StateModel::Completing { context } => match event {
            EventModel::DeliveryConfirmed => Outcome {
                state: StateModel::Delivered,
                actions: Seq::empty(),
            },
            _ => stay(state),
        },
        _ => stay(state),
    }
}

/// A job: its state, which is always well formed.
#[derive(Debug, PartialEq, Eq)]
pub struct Job {
    state: JobState,
}

/// A job after a step, and what the caller is to do.
#[derive(Debug, PartialEq, Eq)]
pub struct Transition {
    pub job: Job,
    pub actions: Vec<Action>,
}

impl View for Job {
    type V = StateModel;

    closed spec fn view(&self) -> StateModel {
        self.state@
    }
}

impl View for Transition {
    type V = Outcome;

    open spec fn view(&self) -> Outcome {
        Outcome { state: self.job@, actions: actions_model(self.actions@) }
    }
}

impl Job {
    #[verifier::type_invariant]
    spec fn state_is_well_formed(&self) -> bool {
        well_formed(self.state@)
    }

    /// The job of a command that has just come in.
    pub fn new() -> (job: Job)
        ensures
            job@ == StateModel::Received,
    {
        Job { state: JobState::Received }
    }

    /// From `Received` to `Validating`: takes the prompt from the command
    /// and trims it.
    pub fn receive(chat: i64, message: i32, argument: &str) -> (job: Job)
        ensures
            job@ == received(chat, message, argument@),
    {
        let prompt = trim(argument);
        proof {
            lemma_trimmed(argument@);
        }
        Job {
            state: JobState::Validating {
                context: JobContext { chat, command: message, placeholder: None },
                prompt,
            },
        }
    }

    /// Out of `Validating`: fails the job for want of a prompt, or asks
    /// for the placeholder. A job in another state stays as it is.
    pub fn validate(self) -> (next: Transition)
        ensures
            next@ == validation_of(self@),
            well_formed(next.job@),
    {
        proof {
            use_type_invariant(&self);
        }
        match self.state {
            JobState::Validating { context, prompt } => validate(context, prompt),
            other => unchanged(other),
        }
    }

    /// The state of the job.
    pub fn state(&self) -> (state: &JobState)
        ensures
            state@ == self@,
            well_formed(self@),
    {
        proof {
            use_type_invariant(self);
        }
        &self.state
    }

    /// Whether the job has ended.
    pub fn ended(&self) -> (yes: bool)
        ensures
            yes == is_terminal(self@),
    {
        match &self.state {
            JobState::Delivered => true,
            JobState::Failed { .. } => true,
            _ => false,
        }
    }

    /// Takes `event` into account, with `seed` for the request if this is
    /// the step that submits one.
    pub fn step_with_seed(self, event: Event, template: &GenerationTemplate, seed: u64) -> (next:
        Transition)
        ensures
            next@ == transition(self@, event@, template@, seed),
            well_formed(next.job@),
    {
        proof {
            use_type_invariant(&self);
        }
        match self.state {
            JobState::Received => match event {
                Event::Command { chat, message, argument } => {
                    Job::receive(chat, message, argument.as_str()).validate()
                },
                _ => unchanged(JobState::Received),
            },
            JobState::AwaitingGeneration { context, prompt } => match event {
                Event::PlaceholderShown { message, at } => {
                    if context.placeholder.is_none() {
                        submit(context, prompt, Placeholder { message, since: at }, template, seed)
                    } else {
                        unchanged(JobState::AwaitingGeneration { context, prompt })
                    }
                },
                Event::GenerationFinished { outcome, at } => match context.placeholder {
                    Some(placeholder) => finish(context, prompt, placeholder, outcome, at),
                    None => unchanged(JobState::AwaitingGeneration { context, prompt }),
                },
                _ => unchanged(JobState::AwaitingGeneration { context, prompt }),
            },
            JobState::Completing { context } => match event {
                Event::DeliveryConfirmed => unchanged(JobState::Delivered),
                _ => unchanged(JobState::Completing { context }),
            },
            other => unchanged(other),
        }
    }

    /// Takes `event` into account. The step that submits a request draws
    /// its seed; whatever seed was drawn, the step is the `transition` for
    /// that seed.
    pub fn step(self, event: Event, template: &GenerationTemplate) -> (next: Transition)
        ensures
            exists|seed: u64| next@ == #[trigger] transition(self@, event@, template@, seed),
            well_formed(next.job@),
    {
        let seed = match event {
            Event::PlaceholderShown { .. } => draw_seed(),
            _ => 0,
        };
        self.step_with_seed(event, template, seed)
    }
}

fn unchanged(state: JobState) -> (next: Transition)
    requires
        well_formed(state@),
    ensures
        next@ == stay(state@),
        well_formed(next.job@),
{
    let next = Transition { job: Job { state }, actions: Vec::new() };
    assert(next@.actions =~= Seq::empty());
    next
}

fn validate(context: JobContext, prompt: String) -> (next: Transition)
    requires
        is_trimmed(prompt@),
    ensures
        next@ == validated(context, prompt@),
        well_formed(next.job@),
{
    let mut actions: Vec<Action> = Vec::new();
    if prompt.as_str().unicode_len() == 0 {
        actions.push(Action::SendHint { chat: context.chat, text: String::from_str(USAGE_HINT) });
        let next = Transition {
            job: Job { state: JobState::Failed { error: GenerationError::EmptyPrompt } },
            actions,
        };
        assert(next@.actions =~= validated(context, prompt@).actions);
        next
    } else {
        actions.push(
            Action::ShowPlaceholder {
                chat: context.chat,
                reply_to: context.command,
                text: String::from_str(PLACEHOLDER_TEXT),
                silent: true,
            },
        );
        let next = Transition {
            job: Job { state: JobState::AwaitingGeneration { context, prompt } },
            actions,
        };
        assert(next@.actions =~= validated(context, prompt@).actions);
        next
    }
}

fn submit(
    context: JobContext,
    prompt: String,
    placeholder: Placeholder,
    template: &GenerationTemplate,
    seed: u64,
) -> (next: Transition)
    requires
        is_trimmed(prompt@),
        prompt@.len() > 0,
    ensures
        next@ == submitted(context, prompt@, placeholder, template@, seed),
        well_formed(next.job@),
{
    let mut actions: Vec<Action> = Vec::new();
    match build_with_seed(template, prompt.as_str(), seed) {
        Ok(request) => {
            actions.push(Action::ShowTyping { chat: context.chat });
            actions.push(Action::Generate { request });
            let next = Transition {
                job: Job {
                    state: JobState::AwaitingGeneration {
                        context: JobContext {
                            chat: context.chat,
                            command: context.command,
                            placeholder: Some(placeholder),
                        },
                        prompt,
                    },
                },
                actions,
            };
            assert(next@.actions =~= submitted(
                context,
                prompt@,
                placeholder,
                template@,
                seed,
            ).actions);
            next
        },
        Err(error) => {
            actions.push(
                Action::RewritePlaceholder {
                    chat: context.chat,
                    message: placeholder.message,
                    text: failure_notice(&error),
                },
            );
            let next = Transition { job: Job { state: JobState::Failed { error } }, actions };
            assert(next@.actions =~= submitted(
                context,
                prompt@,
                placeholder,
                template@,
                seed,
            ).actions);
            next
        },
    }
}

fn fail(context: JobContext, placeholder: Placeholder, error: GenerationError) -> (next: Transition)
    ensures
        next@ == failed(context, placeholder, error@),
        well_formed(next.job@),
{
    let mut actions: Vec<Action> = Vec::new();
    actions.push(Action::ShowUploading { chat: context.chat });
    actions.push(
        Action::RewritePlaceholder {
            chat: context.chat,
            message: placeholder.message,
            text: failure_notice(&error),
        },
    );
    let next = Transition { job: Job { state: JobState::Failed { error } }, actions };
    assert(next@.actions =~= failed(context, placeholder, error@).actions);
    next
}

fn finish(
    context: JobContext,
    prompt: String,
    placeholder: Placeholder,
    outcome: Result<ArtifactSet, GenerationError>,
    at: u64,
) -> (next: Transition)
    requires
        context.placeholder == Some(placeholder),
    ensures
        next@ == finished(
            context,
            prompt@,
            placeholder,
            match outcome {
                Ok(artifacts) => Ok(artifacts@),
                Err(error) => Err(error@),
            },
            at,
        ),
        well_formed(next.job@),
{
    match outcome {
        Ok(artifacts) => match select(&artifacts) {
            Ok(image) => {
                let millis = at.saturating_sub(placeholder.since);
                let mut actions: Vec<Action> = Vec::new();
                actions.push(Action::ShowUploading { chat: context.chat });
                actions.push(
                    Action::SendPhoto {
                        chat: context.chat,
                        reply_to: context.command,
                        image,
                        caption: caption_text(prompt.as_str(), millis),
                    },
                );
                actions.push(
                    Action::RemovePlaceholder { chat: context.chat, message: placeholder.message },
                );
                let next = Transition { job: Job { state: JobState::Completing { context } }, actions };
                assert(next@.actions =~= finished(
                    context,
                    prompt@,
                    placeholder,
                    Ok(artifacts@),
                    at,
                ).actions);
                next
            },
            Err(_) => fail(context, placeholder, GenerationError::NoImageProduced),
        },
        Err(error) => fail(context, placeholder, error),
    }
}

} // verus!
