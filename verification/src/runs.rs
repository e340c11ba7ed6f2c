//! Runs of the pipeline, and what holds of every run.
//!
//! A run starts in the initial state and is fed a sequence of events, any
//! events in any order. These theorems say what the pipeline does along every
//! such run: its steps come in one order, the program is run only after the
//! compiler has accepted the source, the reply is handed out only after the
//! removal of the workspace has been asked for and reported back, and the
//! reply does not depend on which identifier the workspace was given.

use vstd::prelude::*;
use crate::identifier::{
    artifact_name,
    lemma_distinct_identifiers_distinct_names,
    lemma_names_are_plain,
    is_plain_file_name,
    source_name,
};
use crate::pipeline::{initial, next, ActionView, EventView, PipelineState};
use crate::subprocess::{ArgumentView, InvocationView};

verus! {

/// The place of a state in the order of the steps.
pub open spec fn rank(state: PipelineState) -> nat {
    match state {
        PipelineState::AwaitWorkspace { .. } => 0,
        PipelineState::AwaitFile { .. } => 1,
        PipelineState::AwaitWrite { .. } => 2,
        PipelineState::AwaitCompile { .. } => 3,
        PipelineState::AwaitRun { .. } => 4,
        PipelineState::AwaitCleanup { .. } => 5,
        PipelineState::Finished => 6,
    }
}

/// The place of an action in the order of the steps: that of the state which
/// waits for its result, and for the reply that of the finished state.
pub open spec fn action_rank(action: ActionView) -> nat {
    match action {
        ActionView::CreateWorkspace => 0,
        ActionView::CreateSourceFile { .. } => 1,
        ActionView::WriteSource { .. } => 2,
        ActionView::Compile { .. } => 3,
        ActionView::Execute { .. } => 4,
        ActionView::RemoveWorkspace => 5,
        ActionView::Respond { .. } => 6,
    }
}

/// Whether a workspace exists that the pipeline is answerable for: it has
/// been created, and its removal has not been reported back.
pub open spec fn holds_workspace(state: PipelineState) -> bool {
    1 <= rank(state) <= 5
}

/// The state after `event`: the next state where the event is taken, the
/// same state where it is refused.
pub open spec fn after(state: PipelineState, event: EventView) -> PipelineState {
    match next(state, event) {
        Ok((then, _)) => then,
        Err(_) => state,
    }
}

/// The action handed out for `event`, if the event is taken.
pub open spec fn handed_out(state: PipelineState, event: EventView) -> Option<ActionView> {
    match next(state, event) {
        Ok((_, action)) => Some(action),
        Err(_) => None,
    }
}

/// The state in which a run from `start` meets its `i`-th event.
pub open spec fn state_before(start: PipelineState, events: Seq<EventView>, i: int) -> PipelineState
    decreases i,
{
    if i <= 0 {
        start
    } else {
        after(state_before(start, events, i - 1), events[i - 1])
    }
}

/// The action that a run from `start` hands out for its `i`-th event, if it
/// takes that event.
pub open spec fn action_at(start: PipelineState, events: Seq<EventView>, i: int) -> Option<
    ActionView,
> {
    handed_out(state_before(start, events, i), events[i])
}

/// Every step that is taken goes forward in the order of the steps, and the
/// action handed out is the one whose result the new state waits for.
pub proof fn lemma_step_goes_forward(state: PipelineState, event: EventView)
    ensures
        next(state, event) matches Ok((then, action)) ==> rank(state) < rank(then) && action_rank(
            action,
        ) == rank(then),
        rank(state) <= rank(after(state, event)),
{
}

/// The program is started only in answer to a compiler that exited with
/// code zero; a compiler that exited otherwise ends the request.
pub proof fn lemma_execute_needs_accepted_source(state: PipelineState, event: EventView)
    ensures
        handed_out(state, event) matches Some(action) && action is Execute ==> {
            &&& state is AwaitCompile
            &&& event matches EventView::Exited { result }
            &&& result.exit_code == Some(0i32)
        },
        state is AwaitCompile && (event matches EventView::Exited { result } && result.exit_code
            != Some(0i32)) ==> handed_out(state, event) == Some(ActionView::RemoveWorkspace),
{
}

/// The reply is handed out only where no workspace is held: either none was
/// created, or the result of its removal has just come in. And a pipeline
/// that holds a workspace lets go of it in no other way than by asking for
/// its removal.
pub proof fn lemma_reply_needs_cleanup(state: PipelineState, event: EventView)
    ensures
        next(state, event) matches Ok((then, action)) ==> {
            &&& action is Respond <==> then is Finished
            &&& action is Respond ==> state is AwaitCleanup || (state is AwaitWorkspace
                && event is Failed)
            &&& action is RemoveWorkspace <==> then is AwaitCleanup
            &&& holds_workspace(state) && !(state is AwaitCleanup) ==> holds_workspace(then)
            &&& holds_workspace(then) && !holds_workspace(state) ==> state is AwaitWorkspace
                && event is Done
        },
{
}

/// Along a run the states never go back in the order of the steps.
pub proof fn lemma_run_goes_forward(
    start: PipelineState,
    events: Seq<EventView>,
    i: int,
    j: int,
)
    requires
        0 <= i <= j,
    ensures
        rank(state_before(start, events, i)) <= rank(state_before(start, events, j)),
    decreases j - i,
{
    if i < j {
        lemma_run_goes_forward(start, events, i, j - 1);
        lemma_step_goes_forward(state_before(start, events, j - 1), events[j - 1]);
    }
}

/// The actions of a run come in the order of the steps: of two actions, the
/// later one stands later in that order. So no step is taken twice, the
/// compiler runs before the program, the workspace is removed after both,
/// and the reply comes last.
pub proof fn theorem_actions_in_order(
    start: PipelineState,
    events: Seq<EventView>,
    i: int,
    j: int,
)
    requires
        0 <= i < j,
        action_at(start, events, i) is Some,
        action_at(start, events, j) is Some,
    ensures
        action_rank(action_at(start, events, i)->0) < action_rank(action_at(start, events, j)->0),
{
    lemma_step_goes_forward(state_before(start, events, i), events[i]);
    lemma_step_goes_forward(state_before(start, events, j), events[j]);
    assert(state_before(start, events, i + 1) == after(state_before(start, events, i), events[i]));
    lemma_run_goes_forward(start, events, i + 1, j);
}

/// How many of its first `i` events a run from `start` takes.
pub open spec fn taken(start: PipelineState, events: Seq<EventView>, i: int) -> nat
    decreases i,
{
    if i <= 0 {
        0
    } else if action_at(start, events, i - 1) is Some {
        taken(start, events, i - 1) + 1
    } else {
        taken(start, events, i - 1)
    }
}

/// The program is run only after the compiler has accepted the source. If
/// the program is started at some event of a run, that event is the exit of
/// the compiler with code zero; and once the compiler has exited with
/// another code, the program is started at no later event.
pub proof fn theorem_no_run_without_accepted_source(
    code: Seq<char>,
    id: u128,
    events: Seq<EventView>,
    i: int,
    j: int,
)
    requires
        0 <= i < j,
    ensures
        action_at(initial(code, id), events, j) matches Some(action) && action is Execute ==> {
            &&& state_before(initial(code, id), events, j) is AwaitCompile
            &&& events[j] matches EventView::Exited { result }
            &&& result.exit_code == Some(0i32)
        },
        state_before(initial(code, id), events, i) is AwaitCompile && (
        events[i] matches EventView::Exited { result } && result.exit_code != Some(0i32)) ==> !(
        action_at(initial(code, id), events, j) matches Some(action) && action is Execute),
{
    let start = initial(code, id);
    lemma_execute_needs_accepted_source(state_before(start, events, j), events[j]);
    lemma_execute_needs_accepted_source(state_before(start, events, i), events[i]);
    assert(state_before(start, events, i + 1) == after(state_before(start, events, i), events[i]));
    lemma_run_goes_forward(start, events, i + 1, j);
}

/// The workspace is gone before the reply goes out. Where a run hands out
/// the reply, either no action was handed out before (the workspace could
/// not be created, and nothing else was tried), or the last action handed
/// out before was the removal of the workspace, and the reply answers the
/// report of that removal.
pub proof fn theorem_cleanup_before_reply(
    code: Seq<char>,
    id: u128,
    events: Seq<EventView>,
    j: int,
)
    requires
        0 <= j,
        action_at(initial(code, id), events, j) matches Some(action) && action is Respond,
    ensures
        !holds_workspace(state_before(initial(code, id), events, j + 1)),
        (forall|k: int| 0 <= k < j ==> action_at(initial(code, id), events, k) is None) || (exists|
            i: int,
        |
            0 <= i < j && #[trigger] action_at(initial(code, id), events, i) == Some(
                ActionView::RemoveWorkspace,
            ) && forall|k: int| i < k < j ==> action_at(initial(code, id), events, k) is None),
{
    let start = initial(code, id);
    let before = state_before(start, events, j);
    lemma_reply_needs_cleanup(before, events[j]);
    assert(state_before(start, events, j + 1) == after(before, events[j]));
    if before is AwaitCleanup {
        let i = lemma_awaited_action(start, events, 0, j);
        assert(action_at(start, events, i) == Some(ActionView::RemoveWorkspace));
    } else {
        assert forall|k: int| 0 <= k < j implies action_at(start, events, k) is None by {
            lemma_run_goes_forward(start, events, 0, k);
            lemma_run_goes_forward(start, events, k + 1, j);
            lemma_step_goes_forward(state_before(start, events, k), events[k]);
            assert(state_before(start, events, k + 1) == after(
                state_before(start, events, k),
                events[k],
            ));
        }
    }
}

/// Every pipeline that holds a workspace hands out its removal before it
/// hands out anything else that ends the request: from a state that holds a
/// workspace, the reply is at least two taken events away.
pub proof fn theorem_held_workspace_is_removed(
    start: PipelineState,
    events: Seq<EventView>,
    i: int,
    j: int,
)
    requires
        0 <= i <= j,
        holds_workspace(state_before(start, events, i)),
        action_at(start, events, j) matches Some(action) && action is Respond,
    ensures
        state_before(start, events, i) is AwaitCleanup || exists|k: int|
            i <= k < j && #[trigger] action_at(start, events, k) == Some(
                ActionView::RemoveWorkspace,
            ),
{
    let from = state_before(start, events, i);
    let before = state_before(start, events, j);
    lemma_reply_needs_cleanup(before, events[j]);
    lemma_run_goes_forward(start, events, i, j);
    if !(from is AwaitCleanup) {
        let k = lemma_awaited_action(start, events, i, j);
        assert(action_at(start, events, k) == Some(ActionView::RemoveWorkspace));
    }
}

/// A run takes at most six events: whatever it is fed, it has replied (or
/// is still waiting) after six steps.
pub proof fn theorem_run_is_short(start: PipelineState, events: Seq<EventView>, i: int)
    requires
        0 <= i,
    ensures
        taken(start, events, i) <= rank(state_before(start, events, i)) - rank(start),
        taken(start, events, i) <= 6,
    decreases i,
{
    if i > 0 {
        theorem_run_is_short(start, events, i - 1);
        lemma_step_goes_forward(state_before(start, events, i - 1), events[i - 1]);
    }
}

/// The last action that a run has handed out is the one whose result its
/// state waits for: where the state has moved on since the `i`-th event,
/// there is an event since then for which that action was handed out, and no
/// action was handed out after it.
pub proof fn lemma_awaited_action(
    start: PipelineState,
    events: Seq<EventView>,
    i: int,
    j: int,
) -> (k: int)
    requires
        0 <= i <= j,
        rank(state_before(start, events, j)) != rank(state_before(start, events, i)),
    ensures
        i <= k < j,
        action_at(start, events, k) matches Some(action) && action_rank(action) == rank(
            state_before(start, events, j),
        ),
        forall|m: int| k < m < j ==> action_at(start, events, m) is None,
    decreases j - i,
{
    let before = state_before(start, events, j - 1);
    lemma_step_goes_forward(before, events[j - 1]);
    if next(before, events[j - 1]) is Ok {
        j - 1
    } else {
        lemma_awaited_action(start, events, i, j - 1)
    }
}

/// Two states that differ at most in the identifier of the workspace.
pub open spec fn alike_states(one: PipelineState, other: PipelineState) -> bool {
    match (one, other) {
        (
            PipelineState::AwaitWorkspace { code: c1, .. },
            PipelineState::AwaitWorkspace { code: c2, .. },
        ) => c1 == c2,
        (PipelineState::AwaitFile { code: c1, .. }, PipelineState::AwaitFile { code: c2, .. }) => c1
            == c2,
        (PipelineState::AwaitWrite { .. }, PipelineState::AwaitWrite { .. }) => true,
        (PipelineState::AwaitCompile { .. }, PipelineState::AwaitCompile { .. }) => true,
        (PipelineState::AwaitRun { .. }, PipelineState::AwaitRun { .. }) => true,
        (PipelineState::AwaitCleanup { reply: r1 }, PipelineState::AwaitCleanup { reply: r2 }) => r1
            == r2,
        (PipelineState::Finished, PipelineState::Finished) => true,
        _ => false,
    }
}

/// Two actions that differ at most in the names of the files they touch:
/// the same step, the same text to write, the same reply.
pub open spec fn alike_actions(one: Option<ActionView>, other: Option<ActionView>) -> bool {
    match (one, other) {
        (None, None) => true,
        (Some(ActionView::CreateWorkspace), Some(ActionView::CreateWorkspace)) => true,
        (
            Some(ActionView::CreateSourceFile { .. }),
            Some(ActionView::CreateSourceFile { .. }),
        ) => true,
        (
            Some(ActionView::WriteSource { contents: c1, .. }),
            Some(ActionView::WriteSource { contents: c2, .. }),
        ) => c1 == c2,
        (Some(ActionView::Compile { .. }), Some(ActionView::Compile { .. })) => true,
        (Some(ActionView::Execute { .. }), Some(ActionView::Execute { .. })) => true,
        (Some(ActionView::RemoveWorkspace), Some(ActionView::RemoveWorkspace)) => true,
        (Some(ActionView::Respond { reply: r1 }), Some(ActionView::Respond { reply: r2 })) => r1
            == r2,
        _ => false,
    }
}

/// Runs that start alike and are fed the same events stay alike.
pub proof fn lemma_alike_runs(
    one: PipelineState,
    other: PipelineState,
    events: Seq<EventView>,
    i: int,
)
    requires
        0 <= i,
        alike_states(one, other),
    ensures
        alike_states(state_before(one, events, i), state_before(other, events, i)),
        alike_actions(action_at(one, events, i), action_at(other, events, i)),
    decreases i,
{
    if i > 0 {
        lemma_alike_runs(one, other, events, i - 1);
    }
}

/// The same source text, submitted twice, gets the same treatment. Two runs
/// for the same text that are fed the same events take the same steps, write
/// the same text and hand out the same reply, whichever identifiers their
/// workspaces were given: nothing of one request shows in another.
pub proof fn theorem_same_submission_same_reply(
    code: Seq<char>,
    first: u128,
    second: u128,
    events: Seq<EventView>,
    i: int,
)
    requires
        0 <= i,
    ensures
        alike_actions(
            action_at(initial(code, first), events, i),
            action_at(initial(code, second), events, i),
        ),
        action_at(initial(code, first), events, i) matches Some(ActionView::Respond { reply })
            ==> action_at(initial(code, second), events, i) == Some(ActionView::Respond { reply }),
{
    lemma_alike_runs(initial(code, first), initial(code, second), events, i);
}

/// Whether a command names the file `name` of the workspace, as the program
/// to start or as one of its arguments.
pub open spec fn names_file(call: InvocationView, name: Seq<char>) -> bool {
    ||| call.program == (ArgumentView::InWorkspace { name })
    ||| exists|n: int|
        0 <= n < call.arguments.len() && #[trigger] call.arguments[n] == (
        ArgumentView::InWorkspace { name })
}

/// Whether an action touches the file `name` of the workspace.
pub open spec fn touches(action: ActionView, name: Seq<char>) -> bool {
    match action {
        ActionView::CreateSourceFile { name: file } => file == name,
        ActionView::WriteSource { name: file, .. } => file == name,
        ActionView::Compile { call } => names_file(call, name),
        ActionView::Execute { call } => names_file(call, name),
        _ => false,
    }
}

/// The identifier that a state carries, where it carries one.
pub open spec fn carries(state: PipelineState, id: u128) -> bool {
    match state {
        PipelineState::AwaitWorkspace { id: held, .. } => held == id,
        PipelineState::AwaitFile { id: held, .. } => held == id,
        PipelineState::AwaitWrite { id: held } => held == id,
        PipelineState::AwaitCompile { id: held } => held == id,
        PipelineState::AwaitRun { id: held } => held == id,
        _ => true,
    }
}

/// The only files that a run touches are the two that are named after the
/// identifier it was started with.
pub proof fn lemma_run_keeps_to_its_files(
    start: PipelineState,
    id: u128,
    events: Seq<EventView>,
    i: int,
    name: Seq<char>,
)
    requires
        0 <= i,
        carries(start, id),
        action_at(start, events, i) matches Some(action) && touches(action, name),
    ensures
        name == source_name(id) || name == artifact_name(id),
{
    lemma_run_carries(start, id, events, i);
}

/// A run carries the identifier it was started with through all its states.
pub proof fn lemma_run_carries(start: PipelineState, id: u128, events: Seq<EventView>, i: int)
    requires
        0 <= i,
        carries(start, id),
    ensures
        carries(state_before(start, events, i), id),
    decreases i,
{
    if i > 0 {
        lemma_run_carries(start, id, events, i - 1);
    }
}

/// Workspaces never collide. Two requests whose identifiers differ touch no
/// file of the same name, whatever their source texts are and whatever
/// happens to either of them.
pub proof fn theorem_distinct_identifiers_distinct_files(
    first_code: Seq<char>,
    first: u128,
    first_events: Seq<EventView>,
    i: int,
    second_code: Seq<char>,
    second: u128,
    second_events: Seq<EventView>,
    j: int,
    name: Seq<char>,
)
    requires
        first != second,
        0 <= i,
        0 <= j,
        action_at(initial(first_code, first), first_events, i) matches Some(action) && touches(
            action,
            name,
        ),
    ensures
        !(action_at(initial(second_code, second), second_events, j) matches Some(action)
            && touches(action, name)),
{
    lemma_distinct_identifiers_distinct_names(first, second);
    lemma_run_keeps_to_its_files(initial(first_code, first), first, first_events, i, name);
    if action_at(initial(second_code, second), second_events, j) matches Some(action) && touches(
        action,
        name,
    ) {
        lemma_run_keeps_to_its_files(initial(second_code, second), second, second_events, j, name);
    }
}

/// Every file that a run touches lies directly inside its workspace: its
/// name cannot lead out of the workspace directory.
pub proof fn theorem_files_stay_inside(
    code: Seq<char>,
    id: u128,
    events: Seq<EventView>,
    i: int,
    name: Seq<char>,
)
    requires
        0 <= i,
        action_at(initial(code, id), events, i) matches Some(action) && touches(action, name),
    ensures
        is_plain_file_name(name),
{
    lemma_run_keeps_to_its_files(initial(code, id), id, events, i, name);
    lemma_names_are_plain(id);
}

/// The transport status tells a failure of the service from a failure of
/// the submitted program. The reply that a step decides on is a transport
/// failure exactly where the step answers a failure of the environment, and
/// it reports success only where the program was run and exited with code
/// zero.
pub proof fn lemma_status_tells_whose_failure(state: PipelineState, event: EventView)
    requires
        !(state is AwaitCleanup),
    ensures
        next(state, event) matches Ok((then, action)) ==> {
            &&& then matches PipelineState::AwaitCleanup { reply } ==> {
                &&& reply.status is InternalServerError <==> event is Failed
                &&& reply.body.success <==> state is AwaitRun && (
                event matches EventView::Exited { result } && result.exit_code == Some(0i32))
            }
            &&& action matches ActionView::Respond { reply } ==> {
                &&& reply.status is InternalServerError
                &&& !reply.body.success
                &&& event is Failed
            }
        },
{
}

} // verus!
