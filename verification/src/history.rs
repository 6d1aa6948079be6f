//! What holds of every run of a job: how many notices of each kind the
//! requester gets, whatever happens and in whatever order.

use vstd::prelude::*;
use crate::caption::USAGE_HINT;
use crate::document::DocumentModel;
use crate::error::ErrorModel;
use crate::job::{
    is_terminal,
    stay,
    transition,
    well_formed,
    ActionModel,
    EventModel,
    Outcome,
    StateModel,
};
use crate::text::{is_blank, lemma_trimmed};

verus! {

/// One step of a run: what happened, and the seed drawn for it.
pub struct Happening {
    pub event: EventModel,
    pub seed: u64,
}

/// The state after all of `steps`, and all the actions asked for on the
/// way, in order.
pub open spec fn run(state: StateModel, template: DocumentModel, steps: Seq<Happening>) -> Outcome
    decreases steps.len(),
{
    if steps.len() == 0 {
        stay(state)
    } else {
        let first = transition(state, steps[0].event, template, steps[0].seed);
        let rest = run(first.state, template, steps.drop_first());
        Outcome { state: rest.state, actions: first.actions + rest.actions }
    }
}

/// The kinds of action.
pub enum ActionKind {
    Hint,
    Placeholder,
    Typing,
    Submission,
    Uploading,
    Photo,
    Removal,
    Rewrite,
}

/// The kind of an action.
pub open spec fn kind_of(action: ActionModel) -> ActionKind {
    match action {
        ActionModel::SendHint { .. } => ActionKind::Hint,
        ActionModel::ShowPlaceholder { .. } => ActionKind::Placeholder,
        ActionModel::ShowTyping { .. } => ActionKind::Typing,
        ActionModel::Generate { .. } => ActionKind::Submission,
        ActionModel::ShowUploading { .. } => ActionKind::Uploading,
        ActionModel::SendPhoto { .. } => ActionKind::Photo,
        ActionModel::RemovePlaceholder { .. } => ActionKind::Removal,
        ActionModel::RewritePlaceholder { .. } => ActionKind::Rewrite,
    }
}

/// How many of `actions` are of the given kind.
pub open spec fn count(actions: Seq<ActionModel>, kind: ActionKind) -> nat
    decreases actions.len(),
{
    if actions.len() == 0 {
        0
    } else {
        count(actions.drop_last(), kind) + if kind_of(actions.last()) == kind {
            1nat
        } else {
            0nat
        }
    }
}

/// Counting goes through concatenation.
pub proof fn lemma_count_add(a: Seq<ActionModel>, b: Seq<ActionModel>, kind: ActionKind)
    ensures
        count(a + b, kind) == count(a, kind) + count(b, kind),
    decreases b.len(),
{
    if b.len() == 0 {
        assert(a + b =~= a);
    } else {
        assert((a + b).drop_last() =~= a + b.drop_last());
        assert((a + b).last() == b.last());
        lemma_count_add(a, b.drop_last(), kind);
    }
}

proof fn lemma_count_three(x: ActionModel, y: ActionModel, z: ActionModel, kind: ActionKind)
    ensures
        count(Seq::empty(), kind) == 0,
        count(seq![x], kind) == if kind_of(x) == kind {
            1nat
        } else {
            0nat
        },
        count(seq![x, y], kind) == count(seq![x], kind) + count(seq![y], kind),
        count(seq![x, y, z], kind) == count(seq![x, y], kind) + count(seq![z], kind),
{
    let none = Seq::<ActionModel>::empty();
    assert(count(none, kind) == 0);
    assert(seq![x].drop_last() =~= none);
    assert(seq![x].last() == x);
    assert(seq![x, y] =~= seq![x] + seq![y]);
    lemma_count_add(seq![x], seq![y], kind);
    assert(seq![x, y, z] =~= seq![x, y] + seq![z]);
    lemma_count_add(seq![x, y], seq![z], kind);
}

/// What the actions asked for so far must add up to in each state.
///
/// Before a prompt is accepted nothing has been shown. While the image is
/// awaited the placeholder has been asked for once, and no more than one
/// request has gone out. Once the image is on its way there has been one
/// photo and one removal of the placeholder, and no failure text. A failed
/// job has told the requester once: by a hint and without ever showing a
/// placeholder, or by one rewriting of the placeholder and without a
/// photo.
pub open spec fn accounted(state: StateModel, history: Seq<ActionModel>) -> bool {
    let hints = count(history, ActionKind::Hint);
    let placeholders = count(history, ActionKind::Placeholder);
    let submissions = count(history, ActionKind::Submission);
    let photos = count(history, ActionKind::Photo);
    let removals = count(history, ActionKind::Removal);
    let rewrites = count(history, ActionKind::Rewrite);
    match state {
        StateModel::Received | StateModel::Validating { .. } => {
            &&& hints == 0
            &&& placeholders == 0
            &&& submissions == 0
            &&& photos == 0
            &&& removals == 0
            &&& rewrites == 0
        },
        StateModel::AwaitingGeneration { context, .. } => {
            &&& hints == 0
            &&& placeholders == 1
            &&& submissions == if context.placeholder.is_some() {
                1nat
            } else {
                0nat
            }
            &&& photos == 0
            &&& removals == 0
            &&& rewrites == 0
        },
        StateModel::Completing { .. } | StateModel::Delivered => {
            &&& hints == 0
            &&& placeholders == 1
            &&& submissions == 1
            &&& photos == 1
            &&& removals == 1
            &&& rewrites == 0
        },
        StateModel::Failed { .. } => {
            &&& photos == 0
            &&& removals == 0
            &&& submissions <= 1
            &&& {
                ||| hints == 1 && placeholders == 0 && rewrites == 0 && submissions == 0
                ||| hints == 0 && placeholders == 1 && rewrites == 1
            }
        },
    }
}

/// A job that has ended takes no further step: every event leaves it as it
/// is and asks for nothing.
pub proof fn lemma_ended_job_stays(state: StateModel, template: DocumentModel, steps: Seq<Happening>)
    requires
        is_terminal(state),
    ensures
        run(state, template, steps) == stay(state),
    decreases steps.len(),
{
    if steps.len() > 0 {
        lemma_ended_job_stays(state, template, steps.drop_first());
        assert(Seq::<ActionModel>::empty() + Seq::<ActionModel>::empty() =~= Seq::<
            ActionModel,
        >::empty());
    }
}

/// Every step keeps the state well formed.
pub proof fn lemma_step_keeps_well_formed(
    state: StateModel,
    event: EventModel,
    template: DocumentModel,
    seed: u64,
)
    requires
        well_formed(state),
    ensures
        well_formed(transition(state, event, template, seed).state),
{
    if let EventModel::Command { chat, message, argument } = event {
        lemma_trimmed(argument);
    }
}

/// Every step keeps the account.
pub proof fn lemma_step_keeps_account(
    state: StateModel,
    history: Seq<ActionModel>,
    event: EventModel,
    template: DocumentModel,
    seed: u64,
)
    requires
        accounted(state, history),
    ensures
        accounted(
            transition(state, event, template, seed).state,
            history + transition(state, event, template, seed).actions,
        ),
{
    let step = transition(state, event, template, seed);
    assert forall|kind: ActionKind|
        count(history + step.actions, kind) == count(history, kind) + count(
            step.actions,
            kind,
        ) by {
        lemma_count_add(history, step.actions, kind);
    }
    if step.actions.len() == 0 {
        assert forall|kind: ActionKind| count(step.actions, kind) == 0 by {}
        assert(step.state == state || (state is Completing && step.state is Delivered));
    } else if step.actions.len() == 1 {
        let x = step.actions[0];
        assert(step.actions =~= seq![x]);
        assert forall|kind: ActionKind|
            count(step.actions, kind) == if kind_of(x) == kind {
                1nat
            } else {
                0nat
            } by {
            lemma_count_three(x, x, x, kind);
        }
    } else if step.actions.len() == 2 {
        let x = step.actions[0];
        let y = step.actions[1];
        assert(step.actions =~= seq![x, y]);
        assert forall|kind: ActionKind|
            count(step.actions, kind) == (if kind_of(x) == kind {
                1nat
            } else {
                0nat
            }) + (if kind_of(y) == kind {
                1nat
            } else {
                0nat
            }) by {
            lemma_count_three(x, y, y, kind);
            lemma_count_three(y, y, y, kind);
        }
    } else {
        let x = step.actions[0];
        let y = step.actions[1];
        let z = step.actions[2];
        assert(step.actions =~= seq![x, y, z]);
        assert forall|kind: ActionKind|
            count(step.actions, kind) == (if kind_of(x) == kind {
                1nat
            } else {
                0nat
            }) + (if kind_of(y) == kind {
                1nat
            } else {
                0nat
            }) + (if kind_of(z) == kind {
                1nat
            } else {
                0nat
            }) by {
            lemma_count_three(x, y, z, kind);
            lemma_count_three(y, y, y, kind);
            lemma_count_three(z, z, z, kind);
        }
    }
}

/// A run keeps the account, from any state in which it holds.
pub proof fn lemma_run_keeps_account(
    state: StateModel,
    history: Seq<ActionModel>,
    template: DocumentModel,
    steps: Seq<Happening>,
)
    requires
        accounted(state, history),
    ensures
        accounted(run(state, template, steps).state, history + run(state, template, steps).actions),
    decreases steps.len(),
{
    if steps.len() == 0 {
        assert(history + Seq::<ActionModel>::empty() =~= history);
    } else {
        let first = transition(state, steps[0].event, template, steps[0].seed);
        let rest = run(first.state, template, steps.drop_first());
        lemma_step_keeps_account(state, history, steps[0].event, template, steps[0].seed);
        lemma_run_keeps_account(first.state, history + first.actions, template, steps.drop_first());
        assert((history + first.actions) + rest.actions =~= history + (first.actions
            + rest.actions));
    }
}

/// Exactly one final notice per command.
///
/// Whatever happens to a job, and in whatever order: once the job is
/// delivering or has ended, the requester has been given exactly one of
/// the image, the failure text over the placeholder, or the usage hint.
/// With the image went exactly one removal of the placeholder and no
/// failure text; with a failure text went no image and no removal. Before
/// that point none of the three has been sent. At no time has more than
/// one placeholder been shown or more than one request gone out.
pub proof fn lemma_one_final_notice(template: DocumentModel, steps: Seq<Happening>)
    ensures
        ({
            let end = run(StateModel::Received, template, steps);
            let hints = count(end.actions, ActionKind::Hint);
            let photos = count(end.actions, ActionKind::Photo);
            let removals = count(end.actions, ActionKind::Removal);
            let rewrites = count(end.actions, ActionKind::Rewrite);
            &&& accounted(end.state, end.actions)
            &&& count(end.actions, ActionKind::Placeholder) <= 1
            &&& count(end.actions, ActionKind::Submission) <= 1
            &&& photos == removals
            &&& hints + photos + rewrites == if is_terminal(end.state) || end.state is Completing {
                1nat
            } else {
                0nat
            }
            &&& end.state is Completing || end.state is Delivered ==> photos == 1
            &&& end.state is Failed ==> photos == 0
        }),
{
    let none = Seq::<ActionModel>::empty();
    assert(accounted(StateModel::Received, none));
    lemma_run_keeps_account(StateModel::Received, none, template, steps);
    assert(none + run(StateModel::Received, template, steps).actions =~= run(
        StateModel::Received,
        template,
        steps,
    ).actions);
}

/// A command without a prompt ends the job at once.
///
/// If the argument of the command is empty or white space only, the job
/// fails with `EmptyPrompt` in its first step. All that is ever asked for,
/// whatever happens afterwards, is the usage hint: no placeholder is shown
/// and no request is handed to the generation client.
pub proof fn lemma_blank_prompt_ends_job(
    chat: i64,
    message: i32,
    argument: Seq<char>,
    template: DocumentModel,
    seed: u64,
    later: Seq<Happening>,
)
    requires
        is_blank(argument),
    ensures
        run(
            StateModel::Received,
            template,
            seq![Happening { event: EventModel::Command { chat, message, argument }, seed }]
                + later,
        ) == (Outcome {
            state: StateModel::Failed { error: ErrorModel::EmptyPrompt },
            actions: seq![ActionModel::SendHint { chat, text: USAGE_HINT@ }],
        }),
{
    let first = Happening { event: EventModel::Command { chat, message, argument }, seed };
    let steps = seq![first] + later;
    lemma_trimmed(argument);
    let step = transition(StateModel::Received, first.event, template, seed);
    assert(steps[0] == first);
    assert(steps.drop_first() =~= later);
    lemma_ended_job_stays(step.state, template, later);
    assert(step.actions + Seq::<ActionModel>::empty() =~= step.actions);
}

/// A command with a prompt never gets the usage hint as its first answer:
/// the first step asks for the placeholder, and for nothing else.
pub proof fn lemma_prompt_starts_job(
    chat: i64,
    message: i32,
    argument: Seq<char>,
    template: DocumentModel,
    seed: u64,
)
    requires
        !is_blank(argument),
    ensures
        ({
            let step = transition(
                StateModel::Received,
                EventModel::Command { chat, message, argument },
                template,
                seed,
            );
            &&& step.state is AwaitingGeneration
            &&& step.actions.len() == 1
            &&& step.actions[0] is ShowPlaceholder
        }),
{
    lemma_trimmed(argument);
}

/// The stage of a job at which an action is asked for: the placeholder
/// comes first, then the submission, then what ends the job.
pub open spec fn rank(action: ActionModel) -> int {
    match kind_of(action) {
        ActionKind::Placeholder => 0,
        ActionKind::Typing | ActionKind::Submission => 1,
        _ => 2,
    }
}

/// The stage that a state has reached.
pub open spec fn level(state: StateModel) -> int {
    match state {
        StateModel::Received | StateModel::Validating { .. } => 0,
        StateModel::AwaitingGeneration { context, .. } => if context.placeholder.is_some() {
            1
        } else {
            0
        },
        _ => 2,
    }
}

/// The actions asked for so far came stage by stage, and none is of a
/// later stage than the state has reached.
pub open spec fn staged(state: StateModel, history: Seq<ActionModel>) -> bool {
    &&& forall|i: int, j: int|
        0 <= i < j < history.len() ==> rank(#[trigger] history[i]) <= rank(#[trigger] history[j])
    &&& forall|i: int| 0 <= i < history.len() ==> rank(#[trigger] history[i]) <= level(state)
}

/// Every step keeps the stages in order.
pub proof fn lemma_step_keeps_stages(
    state: StateModel,
    history: Seq<ActionModel>,
    event: EventModel,
    template: DocumentModel,
    seed: u64,
)
    requires
        staged(state, history),
    ensures
        staged(
            transition(state, event, template, seed).state,
            history + transition(state, event, template, seed).actions,
        ),
{
    let step = transition(state, event, template, seed);
    let after = history + step.actions;
    assert(level(state) <= level(step.state));
    assert forall|k: int| 0 <= k < step.actions.len() implies level(state) <= rank(
        #[trigger] step.actions[k],
    ) && rank(step.actions[k]) <= level(step.state) by {}
    assert forall|k: int, l: int| 0 <= k < l < step.actions.len() implies rank(
        #[trigger] step.actions[k],
    ) <= rank(#[trigger] step.actions[l]) by {}
    assert forall|i: int| 0 <= i < after.len() implies rank(#[trigger] after[i]) <= level(
        step.state,
    ) by {
        if i < history.len() {
            assert(after[i] == history[i]);
        } else {
            assert(after[i] == step.actions[i - history.len()]);
        }
    }
    assert forall|i: int, j: int| 0 <= i < j < after.len() implies rank(#[trigger] after[i])
        <= rank(#[trigger] after[j]) by {
        if j < history.len() {
            assert(after[i] == history[i] && after[j] == history[j]);
        } else if i < history.len() {
            assert(after[i] == history[i]);
            assert(after[j] == step.actions[j - history.len()]);
        } else {
            assert(after[i] == step.actions[i - history.len()]);
            assert(after[j] == step.actions[j - history.len()]);
        }
    }
}

/// A run keeps the stages in order, from any state in which they are.
pub proof fn lemma_run_keeps_stages(
    state: StateModel,
    history: Seq<ActionModel>,
    template: DocumentModel,
    steps: Seq<Happening>,
)
    requires
        staged(state, history),
    ensures
        staged(run(state, template, steps).state, history + run(state, template, steps).actions),
    decreases steps.len(),
{
    if steps.len() == 0 {
        assert(history + Seq::<ActionModel>::empty() =~= history);
    } else {
        let first = transition(state, steps[0].event, template, steps[0].seed);
        let rest = run(first.state, template, steps.drop_first());
        lemma_step_keeps_stages(state, history, steps[0].event, template, steps[0].seed);
        lemma_run_keeps_stages(first.state, history + first.actions, template, steps.drop_first());
        assert((history + first.actions) + rest.actions =~= history + (first.actions
            + rest.actions));
    }
}

/// First the placeholder, then the submission, then the outcome.
///
/// Whatever happens to a job, and in whatever order: among the actions it
/// asks for, the placeholder comes before the request to the generation
/// client, and both come before the photo, the removal of the placeholder
/// and the failure text.
pub proof fn lemma_notices_come_in_order(template: DocumentModel, steps: Seq<Happening>)
    ensures
        ({
            let asked = run(StateModel::Received, template, steps).actions;
            forall|i: int, j: int|
                0 <= i < asked.len() && 0 <= j < asked.len() && rank(#[trigger] asked[i]) < rank(
                    #[trigger] asked[j],
                ) ==> i < j
        }),
{
    let none = Seq::<ActionModel>::empty();
    lemma_run_keeps_stages(StateModel::Received, none, template, steps);
    assert(none + run(StateModel::Received, template, steps).actions =~= run(
        StateModel::Received,
        template,
        steps,
    ).actions);
}

} // verus!
