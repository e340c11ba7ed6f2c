//! Requests, responses and the transport status they travel under.

use vstd::prelude::*;

verus! {

/// How a reply is carried back to the caller.
#[derive(Clone, Copy, Debug, PartialEq, Eq, Structural)]
pub enum TransportStatus {
    /// The request was served; the body says how the submitted program fared.
    Success,
    /// The service itself could not serve the request.
    InternalServerError,
}

impl TransportStatus {
    /// The numeric status of the transport.
    pub open spec fn spec_code(self) -> u16 {
        match self {
            TransportStatus::Success => 200,
            TransportStatus::InternalServerError => 500,
        }
    }

    #[verifier::when_used_as_spec(spec_code)]
    pub fn code(self) -> (c: u16)
        ensures
            c == self.spec_code(),
    {
        match self {
            TransportStatus::Success => 200,
            TransportStatus::InternalServerError => 500,
        }
    }
}

/// One submission: the source text to compile and run. Any text is accepted.
#[derive(Clone, Debug, PartialEq, Eq)]
pub struct ExecutionRequest {
    pub code: String,
}

/// What the caller is told about a submission.
#[derive(Clone, Debug, PartialEq, Eq)]
pub struct ExecutionResponse {
    pub success: bool,
    pub output: String,
    pub error: String,
}

/// The mathematical content of an [`ExecutionResponse`].
pub struct ExecutionResponseView {
    pub success: bool,
    pub output: Seq<char>,
    pub error: Seq<char>,
}

impl View for ExecutionResponse {
    type V = ExecutionResponseView;

    open spec fn view(&self) -> ExecutionResponseView {
        ExecutionResponseView { success: self.success, output: self.output@, error: self.error@ }
    }
}

/// A response together with the transport status it is sent under.
#[derive(Clone, Debug, PartialEq, Eq)]
pub struct Reply {
    pub status: TransportStatus,
    pub body: ExecutionResponse,
}

/// The mathematical content of a [`Reply`].
pub struct ReplyView {
    pub status: TransportStatus,
    pub body: ExecutionResponseView,
}

impl View for Reply {
    type V = ReplyView;

    open spec fn view(&self) -> ReplyView {
        ReplyView { status: self.status, body: self.body@ }
    }
}

} // verus!
