use playground::outcome::{classify, Failure, Outcome};
use playground::response::{ExecutionResponse, Reply, TransportStatus};
use playground::subprocess::SubprocessResult;

fn reply(status: TransportStatus, success: bool, output: &str, error: &str) -> Reply {
    Reply {
        status,
        body: ExecutionResponse { success, output: output.to_string(), error: error.to_string() },
    }
}

#[test]
fn transport_codes() {
    assert_eq!(TransportStatus::Success.code(), 200);
    assert_eq!(TransportStatus::InternalServerError.code(), 500);
}

#[test]
fn failure_messages() {
    assert_eq!(
        Failure::WorkspaceNotCreated.describe("x"),
        "Failed to create temporary directory: x"
    );
    assert_eq!(Failure::FileNotCreated.describe("x"), "Failed to create file: x");
    assert_eq!(Failure::SourceNotWritten.describe("x"), "Failed to write to file: x");
    assert_eq!(Failure::CompilerNotSpawned.describe("x"), "Failed to compile program: x");
    assert_eq!(Failure::ProgramNotSpawned.describe("x"), "Failed to execute program: x");
    assert_eq!(Failure::FileNotCreated.describe(""), "Failed to create file: ");
}

#[test]
fn every_failure_of_the_environment_is_a_transport_failure() {
    let failures = [
        Failure::WorkspaceNotCreated,
        Failure::FileNotCreated,
        Failure::SourceNotWritten,
        Failure::CompilerNotSpawned,
        Failure::ProgramNotSpawned,
    ];
    for failure in failures {
        let got = classify(Outcome::Broken { failure, detail: "why".to_string() });
        assert_eq!(got.status, TransportStatus::InternalServerError);
        assert!(!got.body.success);
        assert_eq!(got.body.output, "");
        assert_eq!(got.body.error, failure.describe("why"));
    }
}

#[test]
fn rejected_source_is_served_as_a_failure_with_the_diagnostic() {
    let got = classify(Outcome::Rejected { diagnostics: "error: oops".to_string() });
    assert_eq!(got, reply(TransportStatus::Success, false, "", "error: oops"));
}

#[test]
fn program_that_ran_is_served_with_both_streams() {
    let ok = classify(
        Outcome::Ran { success: true, output: "out".to_string(), error: "warn".to_string() },
    );
    assert_eq!(ok, reply(TransportStatus::Success, true, "out", "warn"));
    let bad = classify(
        Outcome::Ran { success: false, output: "out".to_string(), error: "err".to_string() },
    );
    assert_eq!(bad, reply(TransportStatus::Success, false, "out", "err"));
}

#[test]
fn a_process_succeeds_with_exit_code_zero_only() {
    let with = |exit_code: Option<i32>| SubprocessResult {
        exit_code,
        stdout: Vec::new(),
        stderr: Vec::new(),
    };
    assert!(with(Some(0)).succeeded());
    assert!(!with(Some(1)).succeeded());
    assert!(!with(Some(-1)).succeeded());
    assert!(!with(Some(i32::MIN)).succeeded());
    assert!(!with(Some(i32::MAX)).succeeded());
    assert!(!with(None).succeeded());
}
