use cmdgen::executor::{conclude, shell_invocation, ExecutionOutcome};
use cmdgen::inference::InferenceError;
use cmdgen::report::{decimal_text, Failure, RunEnd};

#[test]
fn decimal_digits() {
    assert_eq!(decimal_text(0), "0");
    assert_eq!(decimal_text(7), "7");
    assert_eq!(decimal_text(10), "10");
    assert_eq!(decimal_text(500), "500");
    assert_eq!(decimal_text(65535), "65535");
}

#[test]
fn decimal_agrees_with_std() {
    let mut n: u16 = 0;
    loop {
        assert_eq!(decimal_text(n), format!("{}", n));
        if n == u16::MAX {
            break;
        }
        n += 1;
    }
}

#[test]
fn exit_codes() {
    assert_eq!(RunEnd::Completed.exit_code(), 0);
    assert_eq!(RunEnd::Aborted.exit_code(), 0);
    let failures = [
        Failure::EmptyPrompt,
        Failure::Inference(InferenceError::ClientError(String::from("bad request"))),
        Failure::Inference(InferenceError::ServiceUnavailable(500)),
        Failure::Inference(InferenceError::Unreachable),
        Failure::Inference(InferenceError::MalformedResponse),
        Failure::HomeUnset,
        Failure::HistoryWrite,
        Failure::Launch,
        Failure::Command,
    ];
    for failure in failures {
        assert_eq!(RunEnd::Failed(failure).exit_code(), 1);
    }
}

#[test]
fn messages() {
    assert_eq!(Failure::EmptyPrompt.message(), "Error: The prompt is empty.");
    assert_eq!(
        InferenceError::ClientError(String::from("bad request")).message(),
        "API error: \"bad request\""
    );
    assert_eq!(
        InferenceError::ServiceUnavailable(503).message(),
        "Please check if Ollama is up and running. Status code: 503"
    );
    assert_eq!(
        Failure::Inference(InferenceError::ServiceUnavailable(500)).message(),
        "Please check if Ollama is up and running. Status code: 500"
    );
    assert_eq!(InferenceError::Unreachable.message(), "Please check if Ollama is up and running.");
    assert_eq!(
        InferenceError::MalformedResponse.message(),
        "The reply of Ollama could not be read."
    );
    assert_eq!(Failure::HomeUnset.message(), "The home directory is not set.");
    assert_eq!(Failure::HistoryWrite.message(), "Failed to write the shell history.");
    assert_eq!(Failure::Launch.message(), "Failed to execute the generated program.");
    assert_eq!(Failure::Command.message(), "The program threw an error.");
}

#[test]
fn shell_is_called_with_the_whole_command() {
    let call = shell_invocation("echo ok | wc -l");
    assert_eq!(call.program, "bash");
    assert_eq!(call.args, vec![String::from("-c"), String::from("echo ok | wc -l")]);
}

#[test]
fn failed_command_shows_its_errors() {
    let outcome = ExecutionOutcome { exit_succeeded: false, stdout: Vec::new(), stderr: Vec::new() };
    let end = conclude(Some(&outcome));
    assert_eq!(end, RunEnd::Failed(Failure::Command));
    assert_eq!(end.exit_code(), 1);
    assert!(outcome.shown().is_empty());
    let outcome = ExecutionOutcome {
        exit_succeeded: false,
        stdout: b"partial".to_vec(),
        stderr: b"no such file".to_vec(),
    };
    assert_eq!(outcome.shown(), &b"no such file".to_vec());
}

#[test]
fn good_command_shows_its_output() {
    let outcome = ExecutionOutcome {
        exit_succeeded: true,
        stdout: b"ok\n".to_vec(),
        stderr: b"warning".to_vec(),
    };
    let end = conclude(Some(&outcome));
    assert_eq!(end, RunEnd::Completed);
    assert_eq!(end.exit_code(), 0);
    assert_eq!(outcome.shown(), &b"ok\n".to_vec());
}

#[test]
fn shell_that_does_not_start() {
    let end = conclude(None);
    assert_eq!(end, RunEnd::Failed(Failure::Launch));
    assert_eq!(end.exit_code(), 1);
}
