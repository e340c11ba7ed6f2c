//! The decision table: from what happened to a request to the reply it gets.

use vstd::prelude::*;
use vstd::string::StringExecFns;
use crate::response::{ExecutionResponse, ExecutionResponseView, Reply, ReplyView, TransportStatus};

verus! {

/// The ways in which the service's own environment can fail a request.
#[derive(Clone, Copy, Debug, PartialEq, Eq, Structural)]
pub enum Failure {
    /// The workspace directory could not be created.
    WorkspaceNotCreated,
    /// The source file could not be created inside the workspace.
    FileNotCreated,
    /// The source text could not be written to its file.
    SourceNotWritten,
    /// The compiler process could not be started.
    CompilerNotSpawned,
    /// The compiled program could not be started.
    ProgramNotSpawned,
}

impl Failure {
    /// The words that introduce the environment's own account of the failure.
    pub open spec fn prefix(self) -> Seq<char> {
        match self {
            Failure::WorkspaceNotCreated => "Failed to create temporary directory: "@,
            Failure::FileNotCreated => "Failed to create file: "@,
            Failure::SourceNotWritten => "Failed to write to file: "@,
            Failure::CompilerNotSpawned => "Failed to compile program: "@,
            Failure::ProgramNotSpawned => "Failed to execute program: "@,
        }
    }

    /// The message reported for this failure: the prefix, then `detail`.
    pub open spec fn message(self, detail: Seq<char>) -> Seq<char> {
        self.prefix() + detail
    }

    pub fn describe(self, detail: &str) -> (text: String)
        ensures
            text@ == self.message(detail@),
    {
        let prefix = match self {
            Failure::WorkspaceNotCreated => "Failed to create temporary directory: ",
            Failure::FileNotCreated => "Failed to create file: ",
            Failure::SourceNotWritten => "Failed to write to file: ",
            Failure::CompilerNotSpawned => "Failed to compile program: ",
            Failure::ProgramNotSpawned => "Failed to execute program: ",
        };
        String::from_str(prefix).concat(detail)
    }
}

/// What became of a request, with every text already decoded.
#[derive(Clone, Debug, PartialEq, Eq)]
pub enum Outcome {
    /// The environment failed; `detail` is its own account of why.
    Broken { failure: Failure, detail: String },
    /// The compiler ran and refused the source.
    Rejected { diagnostics: String },
    /// The compiled program ran to its end.
    Ran { success: bool, output: String, error: String },
}

/// The mathematical content of an [`Outcome`].
pub enum OutcomeView {
    Broken { failure: Failure, detail: Seq<char> },
    Rejected { diagnostics: Seq<char> },
    Ran { success: bool, output: Seq<char>, error: Seq<char> },
}

impl View for Outcome {
    type V = OutcomeView;

    open spec fn view(&self) -> OutcomeView {
        match self {
            Outcome::Broken { failure, detail } => OutcomeView::Broken {
                failure: *failure,
                detail: detail@,
            },
            Outcome::Rejected { diagnostics } => OutcomeView::Rejected { diagnostics: diagnostics@ },
            Outcome::Ran { success, output, error } => OutcomeView::Ran {
                success: *success,
                output: output@,
                error: error@,
            },
        }
    }
}

/// The reply that each outcome gets.
///
/// A failure of the environment is the only outcome reported as a transport
/// failure. A refusal by the compiler and a run of the program are both
/// served; the program's own exit decides `success`.
pub open spec fn classified(outcome: OutcomeView) -> ReplyView {
    match outcome {
        OutcomeView::Broken { failure, detail } => ReplyView {
            status: TransportStatus::InternalServerError,
            body: ExecutionResponseView {
                success: false,
                output: Seq::empty(),
                error: failure.message(detail),
            },
        },
        OutcomeView::Rejected { diagnostics } => ReplyView {
            status: TransportStatus::Success,
            body: ExecutionResponseView { success: false, output: Seq::empty(), error: diagnostics },
        },
        OutcomeView::Ran { success, output, error } => ReplyView {
            status: TransportStatus::Success,
            body: ExecutionResponseView { success, output, error },
        },
    }
}

/// Maps an outcome to its reply.
pub fn classify(outcome: Outcome) -> (reply: Reply)
    ensures
        reply@ == classified(outcome@),
{
    match outcome {
        Outcome::Broken { failure, detail } => Reply {
            status: TransportStatus::InternalServerError,
            body: ExecutionResponse {
                success: false,
                output: String::new(),
                error: failure.describe(detail.as_str()),
            },
        },
        Outcome::Rejected { diagnostics } => Reply {
            status: TransportStatus::Success,
            body: ExecutionResponse { success: false, output: String::new(), error: diagnostics },
        },
        Outcome::Ran { success, output, error } => Reply {
            status: TransportStatus::Success,
            body: ExecutionResponse { success, output, error },
        },
    }
}

/// The transport status alone tells whose failure it was: a reply is a
/// transport failure exactly where the environment failed, and no transport
/// failure reports success or carries output.
pub proof fn lemma_status_tells_failures_apart(outcome: OutcomeView)
    ensures
        classified(outcome).status is InternalServerError <==> outcome is Broken,
        classified(outcome).status.spec_code() == 500 <==> outcome is Broken,
        classified(outcome).status.spec_code() == 200 <==> !(outcome is Broken),
        outcome is Broken ==> !classified(outcome).body.success && classified(
            outcome,
        ).body.output.len() == 0,
        classified(outcome).body.success <==> (outcome matches OutcomeView::Ran { success, .. }
            && success),
{
}

} // verus!
