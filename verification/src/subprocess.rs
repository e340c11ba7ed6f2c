//! What the pipeline asks to have run, and what comes back from a run.

use vstd::prelude::*;
use vstd::utf8::{
    decode_utf8,
    encode_utf8,
    encode_utf8_decode_utf8,
    encode_utf8_valid_utf8,
    valid_utf8,
};

verus! {

/// What one finished subprocess left behind.
#[derive(Clone, Debug, PartialEq, Eq)]
pub struct SubprocessResult {
    /// The exit code, or `None` where the process ended without one (it was
    /// killed by a signal).
    pub exit_code: Option<i32>,
    /// Everything the process wrote to its standard output.
    pub stdout: Vec<u8>,
    /// Everything the process wrote to its standard error.
    pub stderr: Vec<u8>,
}

/// The mathematical content of a [`SubprocessResult`].
pub struct SubprocessResultView {
    pub exit_code: Option<i32>,
    pub stdout: Seq<u8>,
    pub stderr: Seq<u8>,
}

impl SubprocessResultView {
    /// A process succeeded when it ended with exit code zero.
    pub open spec fn succeeded(self) -> bool {
        self.exit_code == Some(0i32)
    }
}

impl View for SubprocessResult {
    type V = SubprocessResultView;

    open spec fn view(&self) -> SubprocessResultView {
        SubprocessResultView {
            exit_code: self.exit_code,
            stdout: self.stdout@,
            stderr: self.stderr@,
        }
    }
}

impl SubprocessResult {
    /// Whether the process ended with exit code zero.
    pub fn succeeded(&self) -> (yes: bool)
        ensures
            yes == self@.succeeded(),
    {
        match self.exit_code {
            Some(code) => code == 0,
            None => false,
        }
    }
}

/// What `String::from_utf8_lossy` makes of bytes that are not well-formed
/// UTF-8: the text they decode to where each ill-formed stretch is replaced
/// by U+FFFD.
pub uninterp spec fn lossy_text(bytes: Seq<u8>) -> Seq<char>;

/// The text of captured output. Well-formed UTF-8 is the text that it
/// encodes; anything else is decoded with replacements.
pub open spec fn captured_text(bytes: Seq<u8>) -> Seq<char> {
    if valid_utf8(bytes) {
        decode_utf8(bytes)
    } else {
        lossy_text(bytes)
    }
}

/// Decodes captured output with `String::from_utf8_lossy`.
///
/// Trusted: well-formed UTF-8 decodes to the text that it encodes, without
/// any replacement; for other bytes the text is a function of the bytes
/// alone.
#[verifier::external_body]
pub(crate) fn decode_lossy(bytes: &Vec<u8>) -> (text: String)
    ensures
        valid_utf8(bytes@) ==> text@ == decode_utf8(bytes@),
        !valid_utf8(bytes@) ==> text@ == lossy_text(bytes@),
{
    String::from_utf8_lossy(bytes).into_owned()
}

/// Output that a process wrote as UTF-8 is captured as the text it wrote.
pub proof fn lemma_written_text_is_captured(text: Seq<char>)
    ensures
        captured_text(encode_utf8(text)) == text,
{
    encode_utf8_valid_utf8(text);
    encode_utf8_decode_utf8(text);
}

/// One word of a command line.
#[derive(Clone, Debug, PartialEq, Eq)]
pub enum Argument {
    /// A word passed on as it is.
    Literal { text: String },
    /// The file of this name directly inside the request's workspace.
    InWorkspace { name: String },
}

/// The mathematical content of an [`Argument`].
pub enum ArgumentView {
    Literal { text: Seq<char> },
    InWorkspace { name: Seq<char> },
}

impl View for Argument {
    type V = ArgumentView;

    open spec fn view(&self) -> ArgumentView {
        match self {
            Argument::Literal { text } => ArgumentView::Literal { text: text@ },
            Argument::InWorkspace { name } => ArgumentView::InWorkspace { name: name@ },
        }
    }
}

/// A subprocess to start: the program and its arguments, in order. It gets no
/// standard input, and both of its output streams are captured.
#[derive(Clone, Debug, PartialEq, Eq)]
pub struct Invocation {
    pub program: Argument,
    pub arguments: Vec<Argument>,
}

/// The mathematical content of an [`Invocation`].
pub struct InvocationView {
    pub program: ArgumentView,
    pub arguments: Seq<ArgumentView>,
}

impl View for Invocation {
    type V = InvocationView;

    open spec fn view(&self) -> InvocationView {
        InvocationView {
            program: self.program@,
            arguments: self.arguments@.map_values(|a: Argument| a@),
        }
    }
}

/// The compiler call: the compiler, the source file, then `-o` and the place
/// where the program is to be put.
pub open spec fn compile_invocation(source: Seq<char>, artifact: Seq<char>) -> InvocationView {
    InvocationView {
        program: ArgumentView::Literal { text: "rustc"@ },
        arguments: seq![
            ArgumentView::InWorkspace { name: source },
            ArgumentView::Literal { text: "-o"@ },
            ArgumentView::InWorkspace { name: artifact },
        ],
    }
}

/// The call of the compiled program: the program alone, without arguments.
pub open spec fn run_invocation(artifact: Seq<char>) -> InvocationView {
    InvocationView { program: ArgumentView::InWorkspace { name: artifact }, arguments: seq![] }
}

impl Invocation {
    /// The command that compiles `source` into `artifact`, both named inside
    /// the workspace.
    pub fn compile(source: String, artifact: String) -> (call: Invocation)
        ensures
            call@ == compile_invocation(source@, artifact@),
    {
        let mut arguments: Vec<Argument> = Vec::new();
        arguments.push(Argument::InWorkspace { name: source });
        arguments.push(Argument::Literal { text: "-o".to_owned() });
        arguments.push(Argument::InWorkspace { name: artifact });
        let call = Invocation {
            program: Argument::Literal { text: "rustc".to_owned() },
            arguments,
        };
        assert(call@.arguments =~= compile_invocation(source@, artifact@).arguments);
        call
    }

    /// The command that runs the program `artifact` of the workspace.
    pub fn run(artifact: String) -> (call: Invocation)
        ensures
            call@ == run_invocation(artifact@),
    {
        let call = Invocation {
            program: Argument::InWorkspace { name: artifact },
            arguments: Vec::new(),
        };
        assert(call@.arguments =~= run_invocation(artifact@).arguments);
        call
    }
}

} // verus!
