//! The outcome of one run of the log command.

use vstd::prelude::*;
use crate::decode::{decoded, text_from_ansi_bytes};
use crate::text::{SpanView, StyledText};

verus! {

/// How a process ended: its exit code, or `None` where a signal ended it.
#[derive(Clone, Copy, Debug, PartialEq, Eq)]
pub struct ExitStatus {
    pub code: Option<i32>,
}

impl ExitStatus {
    /// The process ended with exit code zero.
    pub open spec fn succeeded(self) -> bool {
        self.code == Some(0i32)
    }

    /// Whether the process ended with exit code zero. An end by signal is
    /// no success.
    pub fn success(&self) -> (yes: bool)
        ensures
            yes == self.succeeded(),
    {
        match self.code {
            Some(code) => code == 0,
            None => false,
        }
    }
}

/// What a finished process left behind.
#[derive(Debug)]
pub struct CommandOutput {
    pub status: ExitStatus,
    pub stdout: Vec<u8>,
    pub stderr: Vec<u8>,
}

/// The mathematical value of a [`PollResult`].
pub enum PollResultView {
    Unpopulated,
    Success { stdout: Seq<Seq<SpanView>> },
    Failure { stdout: Seq<Seq<SpanView>>, stderr: Seq<Seq<SpanView>>, exit_status: ExitStatus },
}

/// The outcome of the latest run of the log command.
#[derive(Debug, PartialEq, Eq)]
pub enum PollResult {
    /// No run has finished yet.
    Unpopulated,
    /// The run exited with success; `stdout` is what it printed.
    Success { stdout: StyledText },
    /// The run did not exit with success.
    Failure { stdout: StyledText, stderr: StyledText, exit_status: ExitStatus },
}

impl View for PollResult {
    type V = PollResultView;

    open spec fn view(&self) -> PollResultView {
        match *self {
            PollResult::Unpopulated => PollResultView::Unpopulated,
            PollResult::Success { stdout } => PollResultView::Success { stdout: stdout@ },
            PollResult::Failure { stdout, stderr, exit_status } => PollResultView::Failure {
                stdout: stdout@,
                stderr: stderr@,
                exit_status,
            },
        }
    }
}

/// The outcome that a finished run stands for: its decoded output where it
/// succeeded, both decoded streams and the status where it did not.
pub open spec fn poll_outcome(status: ExitStatus, stdout: Seq<u8>, stderr: Seq<u8>) -> PollResultView {
    if status.succeeded() {
        PollResultView::Success { stdout: decoded(stdout) }
    } else {
        PollResultView::Failure {
            stdout: decoded(stdout),
            stderr: decoded(stderr),
            exit_status: status,
        }
    }
}

/// What the pane shows for an outcome: the output of a success, the error
/// output of a failure, nothing before the first run has finished.
pub open spec fn primary_content(result: PollResultView) -> Seq<Seq<SpanView>> {
    match result {
        PollResultView::Unpopulated => Seq::empty(),
        PollResultView::Success { stdout } => stdout,
        PollResultView::Failure { stderr, .. } => stderr,
    }
}

impl PollResult {
    /// The outcome of a finished run. Standard output is always decoded,
    /// standard error only where the run did not succeed.
    pub fn from_output(output: &CommandOutput) -> (result: PollResult)
        ensures
            result@ == poll_outcome(output.status, output.stdout@, output.stderr@),
    {
        let stdout = text_from_ansi_bytes(output.stdout.as_slice());
        if output.status.success() {
            PollResult::Success { stdout }
        } else {
            let stderr = text_from_ansi_bytes(output.stderr.as_slice());
            PollResult::Failure { stdout, stderr, exit_status: output.status }
        }
    }

    /// What the pane shows for this outcome.
    pub fn content(&self) -> (content: StyledText)
        ensures
            content@ == primary_content(self@),
    {
        match self {
            PollResult::Unpopulated => StyledText::empty(),
            PollResult::Success { stdout } => stdout.clone(),
            PollResult::Failure { stderr, .. } => stderr.clone(),
        }
    }
}

impl Clone for PollResult {
    fn clone(&self) -> (copy: PollResult)
        ensures
            copy@ == self@,
    {
        match self {
            PollResult::Unpopulated => PollResult::Unpopulated,
            PollResult::Success { stdout } => PollResult::Success { stdout: stdout.clone() },
            PollResult::Failure { stdout, stderr, exit_status } => PollResult::Failure {
                stdout: stdout.clone(),
                stderr: stderr.clone(),
                exit_status: *exit_status,
            },
        }
    }
}

} // verus!
