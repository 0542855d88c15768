//! What can go wrong, and how it is told to the user.
//!
//! No failure of a command or of the network ends the caller: each is
//! turned into one of these errors where it happens, and the text that the
//! system or the engine gave is kept word for word, because reading it is
//! the only way to mend most of these failures.

use vstd::prelude::*;
use vstd::string::StringExecFns;
use crate::decimal::{decimal, decimal_text};
use crate::launch::{
    attempts_view, AggregateLaunchError, AttemptOutcome, AttemptOutcomeView, LaunchAttempt,
    LaunchAttemptView, LaunchStrategy,
};
use crate::text::string_of;

verus! {

/// A failure of the supervisor. Where the system or the engine gave a text
/// of its own, the error holds it unchanged, beside the message that is
/// shown, which says what was being done and holds that text too.
pub enum SupervisorError {
    /// No candidate executable could be started. `detail` is the system's
    /// message for the first one tried.
    NotInstalled { message: String, detail: String },
    /// Every strategy failed for every candidate. The error holds each
    /// attempt.
    LaunchFailed(AggregateLaunchError),
    /// The engine was spawned, but did not answer on `port` within `polls`
    /// health checks.
    Unreachable { port: u16, polls: u32 },
    /// A command ran and reported failure. `stderr` is what it wrote to
    /// tell why.
    SubcommandFailed { message: String, stderr: String },
    /// Output of a command that succeeded lacked what was to be read from
    /// it. The text is that output. The operations of this library give
    /// no such error: a table without models is the empty list, and a
    /// listing that failed is told in the engine's own words whatever
    /// its second source answered. The kind is here for callers that read
    /// such output themselves.
    ParseFailure(String),
    /// The system's own means of looking or acting could not be used.
    /// `detail` is the system's message.
    Indeterminate { message: String, detail: String },
}

pub enum SupervisorErrorView {
    NotInstalled { message: Seq<char>, detail: Seq<char> },
    LaunchFailed(Seq<LaunchAttemptView>),
    Unreachable { port: u16, polls: u32 },
    SubcommandFailed { message: Seq<char>, stderr: Seq<char> },
    ParseFailure(Seq<char>),
    Indeterminate { message: Seq<char>, detail: Seq<char> },
}

impl View for SupervisorError {
    type V = SupervisorErrorView;

    open spec fn view(&self) -> SupervisorErrorView {
        match self {
            SupervisorError::NotInstalled { message, detail } => SupervisorErrorView::NotInstalled {
                message: message@,
                detail: detail@,
            },
            SupervisorError::LaunchFailed(error) => SupervisorErrorView::LaunchFailed(error@),
            SupervisorError::Unreachable { port, polls } => SupervisorErrorView::Unreachable {
                port: *port,
                polls: *polls,
            },
            SupervisorError::SubcommandFailed { message, stderr } =>
                SupervisorErrorView::SubcommandFailed { message: message@, stderr: stderr@ },
            SupervisorError::ParseFailure(output) => SupervisorErrorView::ParseFailure(output@),
            SupervisorError::Indeterminate { message, detail } =>
                SupervisorErrorView::Indeterminate { message: message@, detail: detail@ },
        }
    }
}

/// What a result that holds text says, over the text's characters.
pub open spec fn verdict_view(r: Result<String, SupervisorError>) -> Result<
    Seq<char>,
    SupervisorErrorView,
> {
    match r {
        Ok(text) => Ok(text@),
        Err(error) => Err(error@),
    }
}

/// The failure of a command that ran: the message is the command's own
/// words between what stands before and behind them.
pub open spec fn subcommand_failed(before: Seq<char>, stderr: Seq<char>, after: Seq<char>) -> SupervisorErrorView {
    SupervisorErrorView::SubcommandFailed { message: before + stderr + after, stderr }
}

/// The failure to start any executable of the engine: the message is the
/// system's words between what stands before and behind them.
pub open spec fn not_installed(before: Seq<char>, detail: Seq<char>, after: Seq<char>) -> SupervisorErrorView {
    SupervisorErrorView::NotInstalled { message: before + detail + after, detail }
}

/// The failure to use a means of the system: the message is the system's
/// words behind what stands before them.
pub open spec fn indeterminate(before: Seq<char>, detail: Seq<char>) -> SupervisorErrorView {
    SupervisorErrorView::Indeterminate { message: before + detail, detail }
}

fn framed(before: &str, text: &str, after: &str) -> (r: String)
    ensures
        r@ == before@ + text@ + after@,
{
    let mut message = before.to_string();
    message.append(text);
    message.append(after);
    message
}

pub fn make_subcommand_failed(before: &str, stderr: &str, after: &str) -> (r: SupervisorError)
    ensures
        r@ == subcommand_failed(before@, stderr@, after@),
{
    SupervisorError::SubcommandFailed {
        message: framed(before, stderr, after),
        stderr: stderr.to_string(),
    }
}

pub fn make_not_installed(before: &str, detail: &str, after: &str) -> (r: SupervisorError)
    ensures
        r@ == not_installed(before@, detail@, after@),
{
    SupervisorError::NotInstalled {
        message: framed(before, detail, after),
        detail: detail.to_string(),
    }
}

pub fn make_indeterminate(before: &str, detail: &str) -> (r: SupervisorError)
    ensures
        r@ == indeterminate(before@, detail@),
{
    let mut message = before.to_string();
    message.append(detail);
    SupervisorError::Indeterminate { message, detail: detail.to_string() }
}

/// The name of a strategy in messages.
pub open spec fn strategy_name(strategy: LaunchStrategy) -> Seq<char> {
    match strategy {
        LaunchStrategy::DaemonWrapper => "nohup"@,
        LaunchStrategy::DetachedSpawn => "direct spawn"@,
        LaunchStrategy::ShellSpawn => "shell"@,
        LaunchStrategy::ConsoleLauncher => "console launcher"@,
    }
}

/// How an attempt ended, in words.
pub open spec fn outcome_text(outcome: AttemptOutcomeView) -> Seq<char> {
    match outcome {
        AttemptOutcomeView::Started => "started"@,
        AttemptOutcomeView::SpawnFailed(error) => error,
        AttemptOutcomeView::SkippedMissing => "not found at this path"@,
    }
}

/// One attempt in words: the strategy, the candidate, and how it ended.
pub open spec fn attempt_text(attempt: LaunchAttemptView) -> Seq<char> {
    strategy_name(attempt.strategy) + " "@ + attempt.candidate + ": "@ + outcome_text(
        attempt.outcome,
    )
}

/// The attempts in words, in their order, one after the other.
pub open spec fn attempts_text(attempts: Seq<LaunchAttemptView>) -> Seq<char>
    decreases attempts.len(),
{
    if attempts.len() == 0 {
        Seq::empty()
    } else {
        attempts_text(attempts.drop_last()) + "["@ + attempt_text(attempts.last()) + "] "@
    }
}

/// The message of an error.
pub open spec fn error_text(error: SupervisorErrorView) -> Seq<char> {
    match error {
        SupervisorErrorView::NotInstalled { message, detail } => message,
        SupervisorErrorView::LaunchFailed(attempts) => "Failed to start Ollama service. "@
            + attempts_text(attempts) + "Try running 'ollama serve' manually."@,
        SupervisorErrorView::Unreachable { port, polls } =>
            "Service was started but is not responding on port "@ + decimal(port as nat)
            + " after "@ + decimal(polls as nat) + " checks"@,
        SupervisorErrorView::SubcommandFailed { message, stderr } => message,
        SupervisorErrorView::ParseFailure(output) => "Unexpected output: "@ + output,
        SupervisorErrorView::Indeterminate { message, detail } => message,
    }
}

/// Appends a number in decimal digits.
pub fn append_number(out: &mut String, n: u64)
    ensures
        final(out)@ == old(out)@ + decimal(n as nat),
{
    out.append(string_of(decimal_text(n).as_slice()).as_str());
}

fn append_attempt(out: &mut String, attempt: &LaunchAttempt)
    ensures
        final(out)@ == old(out)@ + "["@ + attempt_text(attempt@) + "] "@,
{
    out.append("[");
    match attempt.strategy {
        LaunchStrategy::DaemonWrapper => out.append("nohup"),
        LaunchStrategy::DetachedSpawn => out.append("direct spawn"),
        LaunchStrategy::ShellSpawn => out.append("shell"),
        LaunchStrategy::ConsoleLauncher => out.append("console launcher"),
    }
    out.append(" ");
    out.append(attempt.candidate.as_str());
    out.append(": ");
    match &attempt.outcome {
        AttemptOutcome::Started => out.append("started"),
        AttemptOutcome::SpawnFailed(error) => out.append(error.as_str()),
        AttemptOutcome::SkippedMissing => out.append("not found at this path"),
    }
    out.append("] ");
    assert(out@ =~= old(out)@ + "["@ + attempt_text(attempt@) + "] "@);
}

impl SupervisorError {
    /// The message of the error, for display.
    pub fn describe(&self) -> (r: String)
        ensures
            r@ == error_text(self@),
    {
        match self {
            SupervisorError::NotInstalled { message, detail } => message.clone(),
            SupervisorError::LaunchFailed(error) => {
                let mut r = "Failed to start Ollama service. ".to_string();
                let ghost head = r@;
                let mut i: usize = 0;
                while i < error.attempts.len()
                    invariant
                        i <= error.attempts.len(),
                        r@ == head + attempts_text(attempts_view(error.attempts@).take(i as int)),
                    decreases error.attempts.len() - i,
                {
                    let ghost next = attempts_view(error.attempts@).take(i + 1);
                    assert(next.drop_last() == attempts_view(error.attempts@).take(i as int));
                    assert(next.last() == error.attempts@[i as int]@);
                    append_attempt(&mut r, &error.attempts[i]);
                    assert(r@ =~= head + attempts_text(next));
                    i += 1;
                }
                assert(attempts_view(error.attempts@).take(error.attempts.len() as int)
                    == attempts_view(error.attempts@));
                r.append("Try running 'ollama serve' manually.");
                r
            },
            SupervisorError::Unreachable { port, polls } => {
                let mut r = "Service was started but is not responding on port ".to_string();
                append_number(&mut r, *port as u64);
                r.append(" after ");
                append_number(&mut r, *polls as u64);
                r.append(" checks");
                r
            },
            SupervisorError::SubcommandFailed { message, stderr } => message.clone(),
            SupervisorError::ParseFailure(output) => {
                let mut r = "Unexpected output: ".to_string();
                r.append(output.as_str());
                r
            },
            SupervisorError::Indeterminate { message, detail } => message.clone(),
        }
    }
}

} // verus!
