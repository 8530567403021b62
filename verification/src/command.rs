//! Running one external command: what is announced before it starts, and
//! what its outcome means for the caller.
//!
//! Nothing here starts a process. The caller prints the announcement, runs
//! the program, and hands what the operating system reported to
//! [`Invocation::conclude`], which gives back the result and the lines to
//! print on the error channel.

use crate::text::{join, join_with, lines_of, prefixed, slice_texts, split_lines, texts};
use vstd::prelude::*;
use vstd::string::*;
use vstd::utf8::*;

verus! {

/// Upper edge of a framed block.
pub const FRAME_TOP: &'static str = "┌─────────────────────────────────────────";

/// Rule between the sections of a framed block.
pub const FRAME_RULE: &'static str = "├─────────────────────────────────────────";

/// Lower edge of a framed block.
pub const FRAME_BOTTOM: &'static str = "└─────────────────────────────────────────";

/// Title of the block printed before a command runs.
pub const TITLE_EXECUTING: &'static str = "│ Executing Command";

/// Title of the block printed after a command failed.
pub const TITLE_FAILED: &'static str = "│ Command Execution Failed";

/// Label in front of the command line.
pub const LABEL_COMMAND: &'static str = "│ Command: ";

/// Label in front of the exit status.
pub const LABEL_STATUS: &'static str = "│ Status: ";

/// Heading of the captured standard output.
pub const HEAD_STDOUT: &'static str = "│ STDOUT:";

/// Heading of the captured standard error.
pub const HEAD_STDERR: &'static str = "│ STDERR:";

/// Marker in front of each captured line.
pub const LINE_MARK: &'static str = "│   ";

/// One command to run: the program, its arguments in order, and whether the
/// run is narrated on the console.
#[derive(Debug, PartialEq, Eq)]
pub struct Invocation {
    pub command: String,
    pub args: Vec<String>,
    pub verbose: bool,
}

/// What an [`Invocation`] holds, as plain text.
pub struct InvocationView {
    pub command: Seq<char>,
    pub args: Seq<Seq<char>>,
    pub verbose: bool,
}

impl View for Invocation {
    type V = InvocationView;

    open spec fn view(&self) -> InvocationView {
        InvocationView { command: self.command@, args: texts(self.args@), verbose: self.verbose }
    }
}

/// What the operating system reported of one attempt to run a program.
#[derive(Debug, PartialEq, Eq)]
pub enum ProcessOutcome {
    /// The program could not be started.
    SpawnFailed { os_error: String },
    /// The program ran to its end. `success` is the platform's own verdict on
    /// the exit status, `status` that status in words, and `stdout` and
    /// `stderr` all that the program wrote.
    Exited { success: bool, status: String, stdout: Vec<u8>, stderr: Vec<u8> },
}

/// What a [`ProcessOutcome`] holds, as plain text and bytes.
pub enum ProcessOutcomeView {
    SpawnFailed { os_error: Seq<char> },
    Exited { success: bool, status: Seq<char>, stdout: Seq<u8>, stderr: Seq<u8> },
}

impl View for ProcessOutcome {
    type V = ProcessOutcomeView;

    open spec fn view(&self) -> ProcessOutcomeView {
        match self {
            ProcessOutcome::SpawnFailed { os_error } => ProcessOutcomeView::SpawnFailed {
                os_error: os_error@,
            },
            ProcessOutcome::Exited { success, status, stdout, stderr } => ProcessOutcomeView::Exited {
                success: *success,
                status: status@,
                stdout: stdout@,
                stderr: stderr@,
            },
        }
    }
}

/// Why a command did not succeed.
#[derive(Debug, PartialEq, Eq)]
pub enum ExecutionError {
    /// The program could not be started. `command` is the program's name.
    SpawnFailed { command: String, os_error: String },
    /// The program ran and reported failure. `command` is the command line,
    /// `stdout` and `stderr` hold all that the program wrote, as text.
    NonZeroExit { command: String, status: String, stdout: String, stderr: String },
}

/// What an [`ExecutionError`] holds, as plain text.
pub enum ExecutionErrorView {
    SpawnFailed { command: Seq<char>, os_error: Seq<char> },
    NonZeroExit { command: Seq<char>, status: Seq<char>, stdout: Seq<char>, stderr: Seq<char> },
}

impl View for ExecutionError {
    type V = ExecutionErrorView;

    open spec fn view(&self) -> ExecutionErrorView {
        match self {
            ExecutionError::SpawnFailed { command, os_error } => ExecutionErrorView::SpawnFailed {
                command: command@,
                os_error: os_error@,
            },
            ExecutionError::NonZeroExit {
                command,
                status,
                stdout,
                stderr,
            } => ExecutionErrorView::NonZeroExit {
                command: command@,
                status: status@,
                stdout: stdout@,
                stderr: stderr@,
            },
        }
    }
}

impl ExecutionErrorView {
    /// The error in one text, for a caller that only reports it.
    pub open spec fn message(self) -> Seq<char> {
        match self {
            ExecutionErrorView::SpawnFailed { command, os_error } => "Failed to execute '"@
                + command + "': "@ + os_error,
            ExecutionErrorView::NonZeroExit {
                command,
                status,
                stdout,
                stderr,
            } => "Command execution failed:\nCommand: "@ + command + "\nStatus: "@ + status
                + "\nstdout: "@ + stdout + "\nstderr: "@ + stderr,
        }
    }
}

/// How one run ended: the result for the caller, and the lines to print on
/// the error channel, in order.
#[derive(Debug, PartialEq, Eq)]
pub struct Completion {
    pub result: Result<(), ExecutionError>,
    pub diagnostics: Vec<String>,
}

/// What a [`Completion`] holds, as plain text.
pub struct CompletionView {
    pub result: Result<(), ExecutionErrorView>,
    pub diagnostics: Seq<Seq<char>>,
}

impl View for Completion {
    type V = CompletionView;

    open spec fn view(&self) -> CompletionView {
        CompletionView {
            result: match self.result {
                Ok(_) => Ok(()),
                Err(e) => Err(e@),
            },
            diagnostics: texts(self.diagnostics@),
        }
    }
}

/// The text that `String::from_utf8_lossy` of std makes of `bytes`: the text
/// that they encode where they are well-formed UTF-8, and otherwise that text
/// with a replacement character for each malformed part.
pub uninterp spec fn lossy_text(bytes: Seq<u8>) -> Seq<char>;

/// Each of `lines` behind the line marker.
pub open spec fn marked(lines: Seq<Seq<char>>) -> Seq<Seq<char>> {
    lines.map_values(|line: Seq<char>| LINE_MARK@ + line)
}

impl InvocationView {
    /// The program and its arguments, each after a space.
    pub open spec fn command_line(self) -> Seq<char> {
        self.command + seq![' '] + join_with(self.args, seq![' '])
    }

    /// The line of a framed block that shows the command line.
    pub open spec fn command_row(self) -> Seq<char> {
        LABEL_COMMAND@ + self.command_line()
    }

    /// The lines to print on standard output before the program starts: a
    /// framed block with the command line for a narrated run, nothing for a
    /// quiet one.
    pub open spec fn announcement(self) -> Seq<Seq<char>> {
        if self.verbose {
            seq![FRAME_TOP@, TITLE_EXECUTING@, self.command_row(), FRAME_BOTTOM@]
        } else {
            Seq::empty()
        }
    }

    /// The framed block that reports a failed run: an empty line, the
    /// command line and the status, each captured stream that is not empty
    /// line by line under its heading, and an empty line at the end.
    pub open spec fn failure_block(
        self,
        status: Seq<char>,
        stdout: Seq<char>,
        stderr: Seq<char>,
    ) -> Seq<Seq<char>> {
        seq![
            Seq::empty(),
            FRAME_TOP@,
            TITLE_FAILED@,
            FRAME_RULE@,
            self.command_row(),
            LABEL_STATUS@ + status,
            FRAME_RULE@,
        ] + (if stdout.len() > 0 {
            seq![HEAD_STDOUT@] + marked(lines_of(stdout))
        } else {
            Seq::empty()
        }) + (if stderr.len() > 0 {
            seq![FRAME_RULE@, HEAD_STDERR@] + marked(lines_of(stderr))
        } else {
            Seq::empty()
        }) + seq![FRAME_BOTTOM@, Seq::empty()]
    }

    /// How a run ends whose program reported failure, given its status and
    /// what it wrote, as text: with an error that holds all of it, and, for
    /// a narrated run, with the failure block.
    pub open spec fn failure(
        self,
        status: Seq<char>,
        stdout: Seq<char>,
        stderr: Seq<char>,
    ) -> CompletionView {
        CompletionView {
            result: Err(
                ExecutionErrorView::NonZeroExit {
                    command: self.command_line(),
                    status,
                    stdout,
                    stderr,
                },
            ),
            diagnostics: if self.verbose {
                self.failure_block(status, stdout, stderr)
            } else {
                Seq::empty()
            },
        }
    }

    /// How a run ends, given what the operating system reported of it. A
    /// program that could not be started is an error and prints nothing; one
    /// that succeeded is no error and prints nothing; one that failed ends
    /// as `failure` says, on the text of what it wrote.
    pub open spec fn conclusion(self, outcome: ProcessOutcomeView) -> CompletionView {
        match outcome {
            ProcessOutcomeView::SpawnFailed { os_error } => CompletionView {
                result: Err(ExecutionErrorView::SpawnFailed { command: self.command, os_error }),
                diagnostics: Seq::empty(),
            },
            ProcessOutcomeView::Exited { success, status, stdout, stderr } => if success {
                CompletionView { result: Ok(()), diagnostics: Seq::empty() }
            } else {
                self.failure(status, lossy_text(stdout), lossy_text(stderr))
            },
        }
    }
}

/// Calls `String::from_utf8_lossy` of std and owns the result. The text is
/// the one that `lossy_text` names; for well-formed UTF-8 it is the text
/// that the bytes encode.
#[verifier::external_body]
fn decode_lossy(bytes: &Vec<u8>) -> (text: String)
    ensures
        text@ == lossy_text(bytes@),
        valid_utf8(bytes@) ==> text@ == decode_utf8(bytes@),
{
    String::from_utf8_lossy(bytes).into_owned()
}

/// Adds `line` at the end of `lines`.
fn push_line(lines: &mut Vec<String>, line: String)
    ensures
        texts(final(lines)@) == texts(old(lines)@).push(line@),
{
    proof {
        assert(texts(lines@.push(line)) =~= texts(lines@).push(line@));
    }
    lines.push(line);
}

/// Adds the lines of `text` at the end of `lines`, each behind the marker.
fn push_marked(lines: &mut Vec<String>, text: &str)
    ensures
        texts(final(lines)@) == texts(old(lines)@) + marked(lines_of(text@)),
{
    let parts = split_lines(text);
    let mut i: usize = 0;
    proof {
        assert(texts(lines@) + marked(lines_of(text@)).take(0) =~= texts(lines@));
    }
    while i < parts.len()
        invariant
            i <= parts.len(),
            texts(parts@) == lines_of(text@),
            texts(lines@) == texts(old(lines)@) + marked(lines_of(text@)).take(i as int),
        decreases parts.len() - i,
    {
        let row = prefixed(LINE_MARK, parts[i].as_str());
        proof {
            let all = marked(lines_of(text@));
            assert(texts(parts@)[i as int] == parts@[i as int]@);
            assert(all[i as int] == row@);
            assert(all.take(i + 1) =~= all.take(i as int).push(row@));
            assert((texts(old(lines)@) + all.take(i as int)).push(row@) =~= texts(old(lines)@)
                + all.take(i + 1));
        }
        push_line(lines, row);
        i += 1;
    }
    proof {
        let all = marked(lines_of(text@));
        assert(all.take(parts.len() as int) =~= all);
    }
}

impl Invocation {
    /// An invocation of `command` with `args`.
    pub fn new(command: &str, args: &[&str], verbose: bool) -> (invocation: Invocation)
        ensures
            invocation@ == (InvocationView {
                command: command@,
                args: slice_texts(args@),
                verbose,
            }),
    {
        let mut owned: Vec<String> = Vec::new();
        let mut i: usize = 0;
        while i < args.len()
            invariant
                i <= args.len(),
                texts(owned@) == slice_texts(args@).take(i as int),
            decreases args.len() - i,
        {
            let arg = String::from_str(args[i]);
            proof {
                assert(arg@ == args@[i as int]@);
                assert(slice_texts(args@).take(i + 1) =~= slice_texts(args@).take(i as int).push(
                    arg@,
                ));
                assert(texts(owned@.push(arg)) =~= texts(owned@).push(arg@));
            }
            owned.push(arg);
            i += 1;
        }
        proof {
            assert(slice_texts(args@).take(args.len() as int) =~= slice_texts(args@));
        }
        Invocation { command: String::from_str(command), args: owned, verbose }
    }

    /// The program and its arguments on one line, as an operator would type
    /// them.
    pub fn command_line(&self) -> (line: String)
        ensures
            line@ == self@.command_line(),
    {
        let mut line = self.command.clone();
        line.push(' ');
        let rest = join(&self.args, " ");
        proof {
            reveal_strlit(" ");
            assert(" "@ =~= seq![' ']);
        }
        line.append(rest.as_str());
        line
    }

    /// The lines to print on standard output before the program starts.
    pub fn announcement(&self) -> (lines: Vec<String>)
        ensures
            texts(lines@) == self@.announcement(),
    {
        let mut lines: Vec<String> = Vec::new();
        if self.verbose {
            let line = self.command_line();
            push_line(&mut lines, String::from_str(FRAME_TOP));
            push_line(&mut lines, String::from_str(TITLE_EXECUTING));
            push_line(&mut lines, prefixed(LABEL_COMMAND, line.as_str()));
            push_line(&mut lines, String::from_str(FRAME_BOTTOM));
        }
        proof {
            assert(texts(lines@) =~= self@.announcement());
        }
        lines
    }

    /// The framed block that reports a failed run.
    fn failure_block(&self, status: &str, stdout: &str, stderr: &str) -> (lines: Vec<String>)
        ensures
            texts(lines@) == self@.failure_block(status@, stdout@, stderr@),
    {
        let mut lines: Vec<String> = Vec::new();
        let line = self.command_line();
        push_line(&mut lines, String::new());
        push_line(&mut lines, String::from_str(FRAME_TOP));
        push_line(&mut lines, String::from_str(TITLE_FAILED));
        push_line(&mut lines, String::from_str(FRAME_RULE));
        push_line(&mut lines, prefixed(LABEL_COMMAND, line.as_str()));
        push_line(&mut lines, prefixed(LABEL_STATUS, status));
        push_line(&mut lines, String::from_str(FRAME_RULE));
        let ghost head = texts(lines@);
        if !stdout.is_empty() {
            push_line(&mut lines, String::from_str(HEAD_STDOUT));
            push_marked(&mut lines, stdout);
        }
        let ghost upper = texts(lines@);
        if !stderr.is_empty() {
            push_line(&mut lines, String::from_str(FRAME_RULE));
            push_line(&mut lines, String::from_str(HEAD_STDERR));
            push_marked(&mut lines, stderr);
        }
        let ghost body = texts(lines@);
        push_line(&mut lines, String::from_str(FRAME_BOTTOM));
        push_line(&mut lines, String::new());
        proof {
            let out = if stdout@.len() > 0 {
                seq![HEAD_STDOUT@] + marked(lines_of(stdout@))
            } else {
                Seq::empty()
            };
            let err = if stderr@.len() > 0 {
                seq![FRAME_RULE@, HEAD_STDERR@] + marked(lines_of(stderr@))
            } else {
                Seq::empty()
            };
            assert(head =~= seq![
                Seq::empty(),
                FRAME_TOP@,
                TITLE_FAILED@,
                FRAME_RULE@,
                self@.command_row(),
                LABEL_STATUS@ + status@,
                FRAME_RULE@,
            ]);
            assert(upper =~= head + out);
            assert(body =~= upper + err);
            assert(texts(lines@) =~= body + seq![FRAME_BOTTOM@, Seq::empty()]);
        }
        lines
    }

    /// How a run ends whose program reported failure, given its status and
    /// what it wrote, as text.
    pub fn failure(&self, status: String, stdout: String, stderr: String) -> (completion:
        Completion)
        ensures
            completion@ == self@.failure(status@, stdout@, stderr@),
    {
        let diagnostics = if self.verbose {
            self.failure_block(status.as_str(), stdout.as_str(), stderr.as_str())
        } else {
            Vec::new()
        };
        proof {
            assert(texts(diagnostics@) =~= self@.failure(status@, stdout@, stderr@).diagnostics);
        }
        let command = self.command_line();
        Completion {
            result: Err(ExecutionError::NonZeroExit { command, status, stdout, stderr }),
            diagnostics,
        }
    }

    /// How a run ends, given what the operating system reported of it. What
    /// a failed program wrote goes into the error as text; where it was
    /// well-formed UTF-8, that text encodes to exactly the bytes written.
    pub fn conclude(&self, outcome: ProcessOutcome) -> (completion: Completion)
        ensures
            completion@ == self@.conclusion(outcome@),
            outcome matches ProcessOutcome::Exited { success: false, stdout, stderr, .. } ==> {
                &&& completion@.result matches Err(
                    ExecutionErrorView::NonZeroExit { stdout: out, stderr: err, .. },
                )
                &&& valid_utf8(stdout@) ==> encode_utf8(out) == stdout@
                &&& valid_utf8(stderr@) ==> encode_utf8(err) == stderr@
            },
    {
        match outcome {
            ProcessOutcome::SpawnFailed { os_error } => {
                let completion = Completion {
                    result: Err(
                        ExecutionError::SpawnFailed { command: self.command.clone(), os_error },
                    ),
                    diagnostics: Vec::new(),
                };
                proof {
                    assert(completion@.diagnostics =~= Seq::empty());
                }
                completion
            },
            ProcessOutcome::Exited { success, status, stdout, stderr } => {
                if success {
                    let completion = Completion { result: Ok(()), diagnostics: Vec::new() };
                    proof {
                        assert(completion@.diagnostics =~= Seq::empty());
                    }
                    completion
                } else {
                    let out = decode_lossy(&stdout);
                    let err = decode_lossy(&stderr);
                    proof {
                        if valid_utf8(stdout@) {
                            decode_utf8_encode_utf8(stdout@);
                        }
                        if valid_utf8(stderr@) {
                            decode_utf8_encode_utf8(stderr@);
                        }
                    }
                    self.failure(status, out, err)
                }
            },
        }
    }
}

impl ExecutionError {
    /// The error in one text, for a caller that only reports it.
    pub fn message(&self) -> (message: String)
        ensures
            message@ == self@.message(),
    {
        match self {
            ExecutionError::SpawnFailed { command, os_error } => {
                let mut message = String::from_str("Failed to execute '");
                message.append(command.as_str());
                message.append("': ");
                message.append(os_error.as_str());
                message
            },
            ExecutionError::NonZeroExit { command, status, stdout, stderr } => {
                let mut message = String::from_str("Command execution failed:\nCommand: ");
                message.append(command.as_str());
                message.append("\nStatus: ");
                message.append(status.as_str());
                message.append("\nstdout: ");
                message.append(stdout.as_str());
                message.append("\nstderr: ");
                message.append(stderr.as_str());
                message
            },
        }
    }
}

/// A program that exits with success ends the run without an error and
/// with nothing for the error channel, narrated or not.
pub proof fn success_is_silent(
    invocation: InvocationView,
    status: Seq<char>,
    stdout: Seq<u8>,
    stderr: Seq<u8>,
)
    ensures
        invocation.conclusion(ProcessOutcomeView::Exited { success: true, status, stdout, stderr })
            == (CompletionView { result: Ok(()), diagnostics: Seq::empty() }),
{
}

/// A program that exits without success ends the run with `NonZeroExit`,
/// which holds the command line, the status, and the text of all that the
/// program wrote to either stream.
pub proof fn failed_exit_carries_output(
    invocation: InvocationView,
    status: Seq<char>,
    stdout: Seq<u8>,
    stderr: Seq<u8>,
)
    ensures
        invocation.conclusion(
            ProcessOutcomeView::Exited { success: false, status, stdout, stderr },
        ).result == Err::<(), ExecutionErrorView>(
            ExecutionErrorView::NonZeroExit {
                command: invocation.command_line(),
                status,
                stdout: lossy_text(stdout),
                stderr: lossy_text(stderr),
            },
        ),
{
}

/// A program that cannot be started ends the run with `SpawnFailed`, which
/// names the program and carries the system's reason; nothing is printed.
pub proof fn unstartable_program_is_reported(invocation: InvocationView, os_error: Seq<char>)
    ensures
        invocation.conclusion(ProcessOutcomeView::SpawnFailed { os_error }) == (CompletionView {
            result: Err(ExecutionErrorView::SpawnFailed { command: invocation.command, os_error }),
            diagnostics: Seq::empty(),
        }),
{
}

/// A quiet run prints nothing: not before the program starts, and not
/// after it ended, however it ended.
pub proof fn quiet_run_prints_nothing(invocation: InvocationView, outcome: ProcessOutcomeView)
    requires
        !invocation.verbose,
    ensures
        invocation.announcement() == Seq::<Seq<char>>::empty(),
        invocation.conclusion(outcome).diagnostics == Seq::<Seq<char>>::empty(),
{
}

/// A narrated run shows the command line, which is the program's name, a
/// space, and the arguments with a space between neighbours: in the block
/// printed before the program starts, and again in the block printed after
/// the program failed. That second block is printed after a failed exit
/// only.
pub proof fn narrated_run_shows_command(
    invocation: InvocationView,
    status: Seq<char>,
    stdout: Seq<u8>,
    stderr: Seq<u8>,
    os_error: Seq<char>,
)
    requires
        invocation.verbose,
    ensures
        invocation.command_row() == LABEL_COMMAND@ + invocation.command + seq![' '] + join_with(
            invocation.args,
            seq![' '],
        ),
        invocation.announcement().len() == 4,
        invocation.announcement()[2] == invocation.command_row(),
        ({
            let printed = invocation.conclusion(
                ProcessOutcomeView::Exited { success: false, status, stdout, stderr },
            ).diagnostics;
            printed.len() >= 9 && printed[4] == invocation.command_row()
        }),
        invocation.conclusion(
            ProcessOutcomeView::Exited { success: true, status, stdout, stderr },
        ).diagnostics.len() == 0,
        invocation.conclusion(ProcessOutcomeView::SpawnFailed { os_error }).diagnostics.len() == 0,
{
}

} // verus!
