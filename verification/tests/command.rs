use helper_install::command::{Completion, ExecutionError, Invocation, ProcessOutcome};

const TOP: &str = "┌─────────────────────────────────────────";
const RULE: &str = "├─────────────────────────────────────────";
const BOTTOM: &str = "└─────────────────────────────────────────";

fn lines(parts: &[&str]) -> Vec<String> {
    parts.iter().map(|part| part.to_string()).collect()
}

fn exited(success: bool, status: &str, stdout: &[u8], stderr: &[u8]) -> ProcessOutcome {
    ProcessOutcome::Exited {
        success,
        status: status.to_string(),
        stdout: stdout.to_vec(),
        stderr: stderr.to_vec(),
    }
}

fn non_zero_exit(command: &str, status: &str, stdout: &str, stderr: &str) -> ExecutionError {
    ExecutionError::NonZeroExit {
        command: command.to_string(),
        status: status.to_string(),
        stdout: stdout.to_string(),
        stderr: stderr.to_string(),
    }
}

#[test]
fn new_holds_what_it_was_given() {
    let invocation = Invocation::new("launchctl", &["bootout", "system", "/x.plist"], true);
    assert_eq!(invocation.command, "launchctl");
    assert_eq!(invocation.args, lines(&["bootout", "system", "/x.plist"]));
    assert!(invocation.verbose);
    let bare = Invocation::new("true", &[], false);
    assert_eq!(bare.command, "true");
    assert!(bare.args.is_empty());
    assert!(!bare.verbose);
}

#[test]
fn command_line_joins_program_and_arguments() {
    let invocation = Invocation::new("launchctl", &["bootout", "system", "/x.plist"], false);
    assert_eq!(invocation.command_line(), "launchctl bootout system /x.plist");
}

#[test]
fn command_line_without_arguments_ends_in_a_space() {
    assert_eq!(Invocation::new("true", &[], false).command_line(), "true ");
}

#[test]
fn announcement_of_narrated_run_is_a_framed_block() {
    let invocation = Invocation::new("launchctl", &["stop", "io.example.helper"], true);
    assert_eq!(
        invocation.announcement(),
        lines(&[TOP, "│ Executing Command", "│ Command: launchctl stop io.example.helper", BOTTOM])
    );
}

#[test]
fn announcement_of_quiet_run_is_empty() {
    let invocation = Invocation::new("launchctl", &["stop", "io.example.helper"], false);
    assert!(invocation.announcement().is_empty());
}

#[test]
fn success_gives_ok_and_prints_nothing() {
    for verbose in [false, true] {
        let invocation = Invocation::new("true", &["-x"], verbose);
        let completion = invocation.conclude(exited(true, "exit status: 0", b"out\n", b"err\n"));
        assert_eq!(completion, Completion { result: Ok(()), diagnostics: Vec::new() });
    }
}

#[test]
fn spawn_failure_names_the_program_and_prints_nothing() {
    for verbose in [false, true] {
        let invocation = Invocation::new("no-such-program", &["--flag"], verbose);
        let completion = invocation.conclude(ProcessOutcome::SpawnFailed {
            os_error: "No such file or directory (os error 2)".to_string(),
        });
        assert_eq!(
            completion.result,
            Err(ExecutionError::SpawnFailed {
                command: "no-such-program".to_string(),
                os_error: "No such file or directory (os error 2)".to_string(),
            })
        );
        assert!(completion.diagnostics.is_empty());
    }
}

#[test]
fn failed_exit_of_quiet_run_carries_output_and_prints_nothing() {
    let invocation = Invocation::new("sh", &["-c", "exit 3"], false);
    let completion = invocation.conclude(exited(false, "exit status: 3", b"partial\n", b"boom\n"));
    assert_eq!(
        completion.result,
        Err(non_zero_exit("sh -c exit 3", "exit status: 3", "partial\n", "boom\n"))
    );
    assert!(completion.diagnostics.is_empty());
}

#[test]
fn failed_exit_of_narrated_run_prints_the_failure_block() {
    let invocation = Invocation::new("sh", &["-c", "exit 3"], true);
    let completion =
        invocation.conclude(exited(false, "exit status: 3", b"one\r\ntwo\n\nfour", b"boom\n"));
    assert_eq!(
        completion.result,
        Err(non_zero_exit("sh -c exit 3", "exit status: 3", "one\r\ntwo\n\nfour", "boom\n"))
    );
    assert_eq!(
        completion.diagnostics,
        lines(&[
            "",
            TOP,
            "│ Command Execution Failed",
            RULE,
            "│ Command: sh -c exit 3",
            "│ Status: exit status: 3",
            RULE,
            "│ STDOUT:",
            "│   one",
            "│   two",
            "│   ",
            "│   four",
            RULE,
            "│ STDERR:",
            "│   boom",
            BOTTOM,
            "",
        ])
    );
}

#[test]
fn failure_block_leaves_out_empty_streams() {
    let invocation = Invocation::new("false", &[], true);
    let completion = invocation.conclude(exited(false, "exit status: 1", b"", b""));
    assert_eq!(
        completion.diagnostics,
        lines(&[
            "",
            TOP,
            "│ Command Execution Failed",
            RULE,
            "│ Command: false ",
            "│ Status: exit status: 1",
            RULE,
            BOTTOM,
            "",
        ])
    );
}

#[test]
fn failure_block_with_standard_error_only() {
    let invocation = Invocation::new("false", &[], true);
    let completion = invocation.conclude(exited(false, "signal: 9 (SIGKILL)", b"", b"killed"));
    assert_eq!(
        completion.diagnostics,
        lines(&[
            "",
            TOP,
            "│ Command Execution Failed",
            RULE,
            "│ Command: false ",
            "│ Status: signal: 9 (SIGKILL)",
            RULE,
            RULE,
            "│ STDERR:",
            "│   killed",
            BOTTOM,
            "",
        ])
    );
}

#[test]
fn failure_block_heads_a_stream_of_one_line_feed() {
    let invocation = Invocation::new("false", &[], true);
    let completion = invocation.conclude(exited(false, "exit status: 1", b"\n", b""));
    assert_eq!(
        completion.diagnostics,
        lines(&[
            "",
            TOP,
            "│ Command Execution Failed",
            RULE,
            "│ Command: false ",
            "│ Status: exit status: 1",
            RULE,
            "│ STDOUT:",
            "│   ",
            BOTTOM,
            "",
        ])
    );
}

#[test]
fn output_that_is_utf8_is_kept_byte_for_byte() {
    let written = "héllo │ wörld ✓\n";
    let invocation = Invocation::new("printf", &[written], false);
    let completion =
        invocation.conclude(exited(false, "exit status: 1", written.as_bytes(), "źle".as_bytes()));
    match completion.result {
        Err(ExecutionError::NonZeroExit { stdout, stderr, .. }) => {
            assert_eq!(stdout.as_bytes(), written.as_bytes());
            assert_eq!(stderr.as_bytes(), "źle".as_bytes());
        }
        other => panic!("unexpected result {:?}", other),
    }
}

#[test]
fn output_that_is_not_utf8_gets_replacement_characters() {
    let invocation = Invocation::new("cat", &["blob"], true);
    let completion =
        invocation.conclude(exited(false, "exit status: 1", b"ab\xffcd\n", b"\xc3(\n"));
    assert_eq!(
        completion.result,
        Err(non_zero_exit("cat blob", "exit status: 1", "ab\u{fffd}cd\n", "\u{fffd}(\n"))
    );
    assert_eq!(completion.diagnostics[8], "│   ab\u{fffd}cd");
    assert_eq!(completion.diagnostics[11], "│   \u{fffd}(");
}

#[test]
fn failure_takes_the_text_as_it_is() {
    let invocation = Invocation::new("make", &["all"], false);
    let completion = invocation.failure(
        "exit status: 2".to_string(),
        "compiling\n".to_string(),
        "error\n".to_string(),
    );
    assert_eq!(
        completion,
        Completion {
            result: Err(non_zero_exit("make all", "exit status: 2", "compiling\n", "error\n")),
            diagnostics: Vec::new(),
        }
    );
    let narrated = Invocation::new("make", &["all"], true).failure(
        "exit status: 2".to_string(),
        String::new(),
        "error\n".to_string(),
    );
    assert_eq!(narrated.diagnostics.len(), 12);
    assert_eq!(narrated.diagnostics[4], "│ Command: make all");
    assert_eq!(narrated.diagnostics[9], "│   error");
}

#[test]
fn message_of_spawn_failure() {
    let error = ExecutionError::SpawnFailed {
        command: "launchctl".to_string(),
        os_error: "No such file or directory (os error 2)".to_string(),
    };
    assert_eq!(
        error.message(),
        "Failed to execute 'launchctl': No such file or directory (os error 2)"
    );
}

#[test]
fn message_of_failed_exit() {
    let error = non_zero_exit("sh -c exit 3", "exit status: 3", "out\n", "err\n");
    assert_eq!(
        error.message(),
        "Command execution failed:\nCommand: sh -c exit 3\nStatus: exit status: 3\nstdout: out\n\nstderr: err\n"
    );
}
