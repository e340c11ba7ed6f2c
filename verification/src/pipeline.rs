//! The pipeline of one request, as a state machine.
//!
//! The pipeline itself touches nothing. It hands its caller one [`Action`] at
//! a time; the caller performs it and reports back with an [`Event`]; the
//! pipeline then decides what comes next. The steps are strictly in order:
//! create the workspace, create the source file, write the source, compile,
//! run, remove the workspace, reply. A failure at any step skips what is left
//! and goes straight to the removal of the workspace, if one was created.

use vstd::prelude::*;
use crate::identifier::{artifact_name, is_random_form, source_name, WorkspaceId};
use crate::outcome::{classified, classify, Failure, Outcome, OutcomeView};
use crate::response::{ExecutionRequest, Reply, ReplyView};
use crate::subprocess::{
    compile_invocation,
    captured_text,
    decode_lossy,
    run_invocation,
    Invocation,
    InvocationView,
    SubprocessResult,
    SubprocessResultView,
};

verus! {

/// How the action that was asked for last went.
#[derive(Clone, Debug, PartialEq, Eq)]
pub enum Event {
    /// A file system action was carried out.
    Done,
    /// The action could not be carried out; `detail` is the environment's
    /// account of why. For a subprocess: it could not be started.
    Failed { detail: String },
    /// The subprocess was started and has ended.
    Exited { result: SubprocessResult },
}

/// The mathematical content of an [`Event`].
pub enum EventView {
    Done,
    Failed { detail: Seq<char> },
    Exited { result: SubprocessResultView },
}

impl View for Event {
    type V = EventView;

    open spec fn view(&self) -> EventView {
        match self {
            Event::Done => EventView::Done,
            Event::Failed { detail } => EventView::Failed { detail: detail@ },
            Event::Exited { result } => EventView::Exited { result: result@ },
        }
    }
}

/// What the caller is to do next.
#[derive(Clone, Debug, PartialEq, Eq)]
pub enum Action {
    /// Create a fresh directory for this request alone.
    CreateWorkspace,
    /// Create the file `name` inside the workspace.
    CreateSourceFile { name: String },
    /// Write `contents`, as it is, to the file `name` inside the workspace.
    WriteSource { name: String, contents: String },
    /// Start the compiler and wait for it.
    Compile { call: Invocation },
    /// Start the compiled program and wait for it.
    Execute { call: Invocation },
    /// Remove the workspace and everything in it.
    RemoveWorkspace,
    /// Send the reply. Nothing follows.
    Respond { reply: Reply },
}

/// The mathematical content of an [`Action`].
pub enum ActionView {
    CreateWorkspace,
    CreateSourceFile { name: Seq<char> },
    WriteSource { name: Seq<char>, contents: Seq<char> },
    Compile { call: InvocationView },
    Execute { call: InvocationView },
    RemoveWorkspace,
    Respond { reply: ReplyView },
}

impl View for Action {
    type V = ActionView;

    open spec fn view(&self) -> ActionView {
        match self {
            Action::CreateWorkspace => ActionView::CreateWorkspace,
            Action::CreateSourceFile { name } => ActionView::CreateSourceFile { name: name@ },
            Action::WriteSource { name, contents } => ActionView::WriteSource {
                name: name@,
                contents: contents@,
            },
            Action::Compile { call } => ActionView::Compile { call: call@ },
            Action::Execute { call } => ActionView::Execute { call: call@ },
            Action::RemoveWorkspace => ActionView::RemoveWorkspace,
            Action::Respond { reply } => ActionView::Respond { reply: reply@ },
        }
    }
}

/// Why an event was not taken.
#[derive(Clone, Copy, Debug, PartialEq, Eq, Structural)]
pub enum StepError {
    /// The event is not a possible result of the action that was asked for.
    UnexpectedEvent,
    /// The reply has been handed out; the pipeline takes no more events.
    AlreadyFinished,
}

/// Where a pipeline stands: which result it waits for, and what it still
/// needs to know for the steps to come.
pub enum PipelineState {
    /// Waits for the workspace to be created.
    AwaitWorkspace { code: Seq<char>, id: u128 },
    /// Waits for the source file to be created.
    AwaitFile { code: Seq<char>, id: u128 },
    /// Waits for the source text to be written.
    AwaitWrite { id: u128 },
    /// Waits for the compiler.
    AwaitCompile { id: u128 },
    /// Waits for the compiled program.
    AwaitRun { id: u128 },
    /// Waits for the workspace to be removed; the reply is decided.
    AwaitCleanup { reply: ReplyView },
    /// The reply has been handed out.
    Finished,
}

/// The state in which every pipeline starts.
pub open spec fn initial(code: Seq<char>, id: u128) -> PipelineState {
    PipelineState::AwaitWorkspace { code, id }
}

/// The step taken when the environment fails: the reply is decided, and what
/// is left is to remove the workspace.
pub open spec fn abandon(failure: Failure, detail: Seq<char>) -> (PipelineState, ActionView) {
    (
        PipelineState::AwaitCleanup {
            reply: classified(OutcomeView::Broken { failure, detail }),
        },
        ActionView::RemoveWorkspace,
    )
}

/// The step taken when a subprocess has decided the reply.
pub open spec fn conclude(outcome: OutcomeView) -> (PipelineState, ActionView) {
    (PipelineState::AwaitCleanup { reply: classified(outcome) }, ActionView::RemoveWorkspace)
}

/// The transition function: the state that follows and the action to take,
/// or the reason why the event is not taken.
pub open spec fn next(state: PipelineState, event: EventView) -> Result<
    (PipelineState, ActionView),
    StepError,
> {
    match state {
        PipelineState::AwaitWorkspace { code, id } => match event {
            EventView::Done => Ok(
                (
                    PipelineState::AwaitFile { code, id },
                    ActionView::CreateSourceFile { name: source_name(id) },
                ),
            ),
            EventView::Failed { detail } => Ok(
                (
                    PipelineState::Finished,
                    ActionView::Respond {
                        reply: classified(
                            OutcomeView::Broken { failure: Failure::WorkspaceNotCreated, detail },
                        ),
                    },
                ),
            ),
            EventView::Exited { .. } => Err(StepError::UnexpectedEvent),
        },
        PipelineState::AwaitFile { code, id } => match event {
            EventView::Done => Ok(
                (
                    PipelineState::AwaitWrite { id },
                    ActionView::WriteSource { name: source_name(id), contents: code },
                ),
            ),
            EventView::Failed { detail } => Ok(abandon(Failure::FileNotCreated, detail)),
            EventView::Exited { .. } => Err(StepError::UnexpectedEvent),
        },
        PipelineState::AwaitWrite { id } => match event {
            EventView::Done => Ok(
                (
                    PipelineState::AwaitCompile { id },
                    ActionView::Compile {
                        call: compile_invocation(source_name(id), artifact_name(id)),
                    },
                ),
            ),
            EventView::Failed { detail } => Ok(abandon(Failure::SourceNotWritten, detail)),
            EventView::Exited { .. } => Err(StepError::UnexpectedEvent),
        },
        PipelineState::AwaitCompile { id } => match event {
            EventView::Done => Err(StepError::UnexpectedEvent),
            EventView::Failed { detail } => Ok(abandon(Failure::CompilerNotSpawned, detail)),
            EventView::Exited { result } => if result.succeeded() {
                Ok(
                    (
                        PipelineState::AwaitRun { id },
                        ActionView::Execute { call: run_invocation(artifact_name(id)) },
                    ),
                )
            } else {
                Ok(conclude(OutcomeView::Rejected { diagnostics: captured_text(result.stderr) }))
            },
        },
        PipelineState::AwaitRun { id } => match event {
            EventView::Done => Err(StepError::UnexpectedEvent),
            EventView::Failed { detail } => Ok(abandon(Failure::ProgramNotSpawned, detail)),
            EventView::Exited { result } => Ok(
                conclude(
                    OutcomeView::Ran {
                        success: result.succeeded(),
                        output: captured_text(result.stdout),
                        error: captured_text(result.stderr),
                    },
                ),
            ),
        },
        PipelineState::AwaitCleanup { reply } => match event {
            EventView::Done => Ok((PipelineState::Finished, ActionView::Respond { reply })),
            EventView::Failed { .. } => Ok((PipelineState::Finished, ActionView::Respond { reply })),
            EventView::Exited { .. } => Err(StepError::UnexpectedEvent),
        },
        PipelineState::Finished => Err(StepError::AlreadyFinished),
    }
}

/// The pipeline's own record of where it stands.
#[derive(Clone, Debug)]
enum Stage {
    AwaitWorkspace { code: String, id: WorkspaceId },
    AwaitFile { code: String, id: WorkspaceId },
    AwaitWrite { id: WorkspaceId },
    AwaitCompile { id: WorkspaceId },
    AwaitRun { id: WorkspaceId },
    AwaitCleanup { reply: Reply },
    Finished,
}

impl View for Stage {
    type V = PipelineState;

    closed spec fn view(&self) -> PipelineState {
        match self {
            Stage::AwaitWorkspace { code, id } => PipelineState::AwaitWorkspace {
                code: code@,
                id: id.bits,
            },
            Stage::AwaitFile { code, id } => PipelineState::AwaitFile { code: code@, id: id.bits },
            Stage::AwaitWrite { id } => PipelineState::AwaitWrite { id: id.bits },
            Stage::AwaitCompile { id } => PipelineState::AwaitCompile { id: id.bits },
            Stage::AwaitRun { id } => PipelineState::AwaitRun { id: id.bits },
            Stage::AwaitCleanup { reply } => PipelineState::AwaitCleanup { reply: reply@ },
            Stage::Finished => PipelineState::Finished,
        }
    }
}

/// Whether `result` reports what `next` prescribes for `state` and `event`,
/// and `after` is the state that `next` prescribes: the state that follows
/// where the event is taken, the state before where it is not.
pub open spec fn follows(
    state: PipelineState,
    event: EventView,
    after: PipelineState,
    result: Result<Action, StepError>,
) -> bool {
    match next(state, event) {
        Ok((then, action)) => {
            &&& after == then
            &&& result matches Ok(taken)
            &&& taken@ == action
        },
        Err(reason) => after == state && result == Err::<Action, StepError>(reason),
    }
}

/// Stops the pipeline for a failure of the environment.
fn give_up(failure: Failure, detail: String) -> (step: (Stage, Action))
    ensures
        (step.0@, step.1@) == abandon(failure, detail@),
{
    let reply = classify(Outcome::Broken { failure, detail });
    (Stage::AwaitCleanup { reply }, Action::RemoveWorkspace)
}

/// Takes one event in one stage.
fn advance(stage: Stage, event: Event) -> (step: (Stage, Result<Action, StepError>))
    ensures
        follows(stage@, event@, step.0@, step.1),
{
    match stage {
        Stage::AwaitWorkspace { code, id } => match event {
            Event::Done => {
                let name = id.source_file();
                (Stage::AwaitFile { code, id }, Ok(Action::CreateSourceFile { name }))
            },
            Event::Failed { detail } => {
                let reply = classify(
                    Outcome::Broken { failure: Failure::WorkspaceNotCreated, detail },
                );
                (Stage::Finished, Ok(Action::Respond { reply }))
            },
            Event::Exited { .. } => (
                Stage::AwaitWorkspace { code, id },
                Err(StepError::UnexpectedEvent),
            ),
        },
        Stage::AwaitFile { code, id } => match event {
            Event::Done => {
                let name = id.source_file();
                (Stage::AwaitWrite { id }, Ok(Action::WriteSource { name, contents: code }))
            },
            Event::Failed { detail } => {
                let (stage, action) = give_up(Failure::FileNotCreated, detail);
                (stage, Ok(action))
            },
            Event::Exited { .. } => (Stage::AwaitFile { code, id }, Err(StepError::UnexpectedEvent)),
        },
        Stage::AwaitWrite { id } => match event {
            Event::Done => {
                let call = Invocation::compile(id.source_file(), id.artifact_file());
                (Stage::AwaitCompile { id }, Ok(Action::Compile { call }))
            },
            Event::Failed { detail } => {
                let (stage, action) = give_up(Failure::SourceNotWritten, detail);
                (stage, Ok(action))
            },
            Event::Exited { .. } => (Stage::AwaitWrite { id }, Err(StepError::UnexpectedEvent)),
        },
        Stage::AwaitCompile { id } => match event {
            Event::Done => (Stage::AwaitCompile { id }, Err(StepError::UnexpectedEvent)),
            Event::Failed { detail } => {
                let (stage, action) = give_up(Failure::CompilerNotSpawned, detail);
                (stage, Ok(action))
            },
            Event::Exited { result } => {
                if result.succeeded() {
                    let call = Invocation::run(id.artifact_file());
                    (Stage::AwaitRun { id }, Ok(Action::Execute { call }))
                } else {
                    let diagnostics = decode_lossy(&result.stderr);
                    let reply = classify(Outcome::Rejected { diagnostics });
                    (Stage::AwaitCleanup { reply }, Ok(Action::RemoveWorkspace))
                }
            },
        },
        Stage::AwaitRun { id } => match event {
            Event::Done => (Stage::AwaitRun { id }, Err(StepError::UnexpectedEvent)),
            Event::Failed { detail } => {
                let (stage, action) = give_up(Failure::ProgramNotSpawned, detail);
                (stage, Ok(action))
            },
            Event::Exited { result } => {
                let success = result.succeeded();
                let output = decode_lossy(&result.stdout);
                let error = decode_lossy(&result.stderr);
                let reply = classify(Outcome::Ran { success, output, error });
                (Stage::AwaitCleanup { reply }, Ok(Action::RemoveWorkspace))
            },
        },
        Stage::AwaitCleanup { reply } => match event {
            Event::Done => (Stage::Finished, Ok(Action::Respond { reply })),
            Event::Failed { .. } => (Stage::Finished, Ok(Action::Respond { reply })),
            Event::Exited { .. } => (
                Stage::AwaitCleanup { reply },
                Err(StepError::UnexpectedEvent),
            ),
        },
        Stage::Finished => (Stage::Finished, Err(StepError::AlreadyFinished)),
    }
}

/// The pipeline of one request.
#[derive(Clone, Debug)]
pub struct Pipeline {
    stage: Stage,
}

impl View for Pipeline {
    type V = PipelineState;

    closed spec fn view(&self) -> PipelineState {
        self.stage@
    }
}

impl Pipeline {
    /// Starts the pipeline of `request` with the identifier `id` for its
    /// workspace. The first thing to do is to create the workspace.
    pub fn start(request: ExecutionRequest, id: WorkspaceId) -> (begun: (Pipeline, Action))
        ensures
            begun.0@ == initial(request.code@, id.bits),
            begun.1@ == ActionView::CreateWorkspace,
    {
        (
            Pipeline { stage: Stage::AwaitWorkspace { code: request.code, id } },
            Action::CreateWorkspace,
        )
    }

    /// Starts the pipeline of `request` with an identifier drawn at random.
    pub fn begin(request: ExecutionRequest) -> (begun: (Pipeline, Action))
        ensures
            exists|id: u128| is_random_form(id) && begun.0@ == initial(request.code@, id),
            begun.1@ == ActionView::CreateWorkspace,
    {
        let id = WorkspaceId::generate();
        Pipeline::start(request, id)
    }

    /// Takes the result of the action that was handed out last, and hands
    /// out the next one. An event that cannot be the result of that action
    /// is refused, and the pipeline stays as it is.
    pub fn step(&mut self, event: Event) -> (result: Result<Action, StepError>)
        ensures
            follows(old(self)@, event@, final(self)@, result),
    {
        let mut stage = Stage::Finished;
        core::mem::swap(&mut self.stage, &mut stage);
        let (stage, result) = advance(stage, event);
        self.stage = stage;
        result
    }

    /// Whether the reply has been handed out.
    pub fn is_finished(&self) -> (yes: bool)
        ensures
            yes == (self@ is Finished),
    {
        match self.stage {
            Stage::Finished => true,
            _ => false,
        }
    }
}

} // verus!
