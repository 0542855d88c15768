//! Repairing an engine that does not answer.
//!
//! The repair is a fixed course, not an open-ended retry: end whatever engine
//! process is left, wait for the system to settle, find the executable on
//! disk, start it, ask for its health once a second up to a fixed number of
//! times, and, once it answers, list its models for good measure. Every
//! branch ends in a report, which tells each step that was taken, whether the
//! repair succeeded, and how often the health was asked for.
//!
//! The session runs and waits for nothing itself: it names what to do next
//! (`pending`) and is told the result (`record`).

use vstd::prelude::*;
use vstd::string::StringExecFns;
use crate::command::{
    engine_env, make_engine_env, plain_command, CommandLine, CommandLineView, Completion,
    CompletionView,
};
use crate::decimal::decimal;
use crate::errors::{
    append_number, make_not_installed, not_installed, SupervisorError, SupervisorErrorView,
};
use crate::health::{
    messages_view, HealthReport, HealthReportView, TierMessage, TierMessageView,
};
use crate::inventory::{count_listed_lines, listed_line_count};
use crate::launch::{
    launch_command, make_launch_command, AggregateLaunchError, AttemptOutcome, AttemptOutcomeView,
    LaunchAttempt, LaunchAttemptView, LaunchStrategy,
};
use crate::models::list_args;
use crate::paths::{
    candidates_view, first_installed, lemma_first_installed, locate_installed, CandidateView,
    ExecutableCandidate,
};
use crate::platform::PlatformId;
use crate::report::{
    copy_lines, failed, heading, lines_view, note, passed, push_line, warning, DiagnosticReport,
    DiagnosticReportView, ReportLine, ReportLineView, StepMark,
};
use crate::supervisor::{make_stop_command, stop_command};

verus! {

/// How often the engine's health is asked for before the repair gives up.
pub const POLL_BUDGET: u32 = 10;

/// How long the system is given to settle after the old engine was ended,
/// in milliseconds.
pub const SETTLE_MS: u64 = 2000;

/// How long the repair waits before each question for the engine's health,
/// and before it lists the models, in milliseconds.
pub const POLL_INTERVAL_MS: u64 = 1000;

/// Where a repair stands.
#[derive(Clone, Copy, PartialEq, Eq, Debug, Structural)]
pub enum RepairPhase {
    /// The old engine is being ended.
    Terminating,
    /// The system settles.
    Settling,
    /// The engine is being started.
    Launching,
    /// The engine's health is being asked for.
    Polling,
    /// The engine's models are being listed.
    Listing,
    /// The repair has ended.
    Finished,
}

/// What the caller of a repair is to do next.
pub enum RepairAction {
    /// Run this command to its end and report how it ended.
    Run(CommandLine),
    /// Wait for so many milliseconds and report that the time has passed.
    Sleep(u64),
    /// Spawn this command, do not wait for it, and report how the spawn went.
    Spawn(CommandLine),
    /// Wait for so many milliseconds, then ask for the engine's health and
    /// report it.
    Poll { wait_ms: u64 },
    /// Wait for so many milliseconds, then run this command to its end and
    /// report how it ended.
    RunAfter { wait_ms: u64, command: CommandLine },
    /// The repair has ended; this is its report.
    Finish(DiagnosticReport),
}

pub enum RepairActionView {
    Run(CommandLineView),
    Sleep(u64),
    Spawn(CommandLineView),
    Poll { wait_ms: u64 },
    RunAfter { wait_ms: u64, command: CommandLineView },
    Finish(DiagnosticReportView),
}

impl View for RepairAction {
    type V = RepairActionView;

    open spec fn view(&self) -> RepairActionView {
        match self {
            RepairAction::Run(command) => RepairActionView::Run(command@),
            RepairAction::Sleep(ms) => RepairActionView::Sleep(*ms),
            RepairAction::Spawn(command) => RepairActionView::Spawn(command@),
            RepairAction::Poll { wait_ms } => RepairActionView::Poll { wait_ms: *wait_ms },
            RepairAction::RunAfter { wait_ms, command } => RepairActionView::RunAfter {
                wait_ms: *wait_ms,
                command: command@,
            },
            RepairAction::Finish(report) => RepairActionView::Finish(report@),
        }
    }
}

/// What the caller reports to a repair.
pub enum RepairEvent {
    /// How the command ended.
    Completed(Completion),
    /// The time has passed.
    Slept,
    /// How the spawn went: `Ok`, or the system's message.
    Spawned(Result<(), String>),
    /// The report of a probe of the engine's health.
    Health(HealthReport),
}

pub enum RepairEventView {
    Completed(CompletionView),
    Slept,
    Spawned(Result<(), Seq<char>>),
    Health(HealthReportView),
}

impl View for RepairEvent {
    type V = RepairEventView;

    open spec fn view(&self) -> RepairEventView {
        match self {
            RepairEvent::Completed(completion) => RepairEventView::Completed(completion@),
            RepairEvent::Slept => RepairEventView::Slept,
            RepairEvent::Spawned(result) => RepairEventView::Spawned(
                match result {
                    Ok(_) => Ok(()),
                    Err(error) => Err(error@),
                },
            ),
            RepairEvent::Health(report) => RepairEventView::Health(report@),
        }
    }
}

/// What the system said where the last probe could not use its means of
/// looking, each message as a line of its own, word for word.
pub open spec fn message_notes(messages: Seq<TierMessageView>) -> Seq<ReportLineView> {
    Seq::new(messages.len(), |i: int| note(messages[i].text))
}

fn push_message_notes(lines: &mut Vec<ReportLine>, messages: &Vec<TierMessage>)
    ensures
        lines_view(final(lines)@) == lines_view(old(lines)@) + message_notes(messages_view(messages@)),
{
    let mut i: usize = 0;
    assert(lines_view(lines@) =~= lines_view(old(lines)@) + message_notes(
        messages_view(messages@),
    ).take(0));
    while i < messages.len()
        invariant
            i <= messages.len(),
            lines_view(lines@) == lines_view(old(lines)@) + message_notes(
                messages_view(messages@),
            ).take(i as int),
        decreases messages.len() - i,
    {
        let ghost so_far = lines_view(lines@);
        push_line(lines, StepMark::Note, messages[i].text.clone());
        assert(lines_view(lines@) =~= lines_view(old(lines)@) + message_notes(
            messages_view(messages@),
        ).take(i + 1));
        i += 1;
    }
    assert(message_notes(messages_view(messages@)).take(messages.len() as int) == message_notes(
        messages_view(messages@),
    ));
}

/// The state of a repair.
pub struct RepairView {
    pub platform: PlatformId,
    pub candidates: Seq<CandidateView>,
    /// For each candidate, whether its path exists on disk.
    pub exists: Seq<bool>,
    pub search_path: Seq<char>,
    pub port: u16,
    pub phase: RepairPhase,
    /// The executable that was found on disk; empty until then.
    pub executable: Seq<char>,
    /// How often the engine's health was asked for.
    pub polls: u32,
    /// The lines of the report so far.
    pub lines: Seq<ReportLineView>,
    pub success: bool,
    /// The system's message, where the spawn failed.
    pub spawn_error: Option<Seq<char>>,
}

impl RepairView {
    /// The repair before its first step.
    pub open spec fn initial(
        platform: PlatformId,
        candidates: Seq<CandidateView>,
        exists: Seq<bool>,
        search_path: Seq<char>,
        port: u16,
    ) -> RepairView {
        RepairView {
            platform,
            candidates,
            exists,
            search_path,
            port,
            phase: RepairPhase::Terminating,
            executable: Seq::empty(),
            polls: 0,
            lines: seq![heading("=== Attempting to Fix Ollama Issues ==="@)],
            success: false,
            spawn_error: None,
        }
    }

    /// The attempt of the repair's one spawn, as a failed one.
    pub open spec fn failed_attempt(self, error: Seq<char>) -> LaunchAttemptView {
        LaunchAttemptView {
            strategy: LaunchStrategy::DetachedSpawn,
            candidate: self.executable,
            outcome: AttemptOutcomeView::SpawnFailed(error),
        }
    }

    /// Why the repair failed; `None` while it runs and where it
    /// succeeded. A spawn that failed is a failed launch; a budget that was
    /// used up leaves the engine unreachable; otherwise no executable was
    /// found.
    pub open spec fn failure(self) -> Option<SupervisorErrorView> {
        if self.phase != RepairPhase::Finished || self.success {
            None
        } else {
            match self.spawn_error {
                Some(error) => Some(
                    SupervisorErrorView::LaunchFailed(seq![self.failed_attempt(error)]),
                ),
                None => if self.polls >= POLL_BUDGET {
                    Some(SupervisorErrorView::Unreachable { port: self.port, polls: self.polls })
                } else {
                    Some(
                        not_installed(
                            "Ollama executable not found in common locations. Please reinstall Ollama."@,
                            ""@,
                            ""@,
                        ),
                    )
                },
            }
        }
    }

    /// The command that lists the models with the executable that was
    /// found.
    pub open spec fn list_command(self) -> CommandLineView {
        plain_command(self.executable, seq!["list"@], engine_env(self.search_path, self.port))
    }

    /// The report of the repair as it stands.
    pub open spec fn report(self) -> DiagnosticReportView {
        DiagnosticReportView { lines: self.lines, success: self.success, polls: self.polls }
    }

    /// What the caller is to do next.
    pub open spec fn pending(self) -> RepairActionView {
        match self.phase {
            RepairPhase::Terminating => RepairActionView::Run(
                stop_command(self.platform, self.search_path),
            ),
            RepairPhase::Settling => RepairActionView::Sleep(SETTLE_MS),
            RepairPhase::Launching => RepairActionView::Spawn(
                launch_command(
                    self.platform,
                    LaunchStrategy::DetachedSpawn,
                    self.executable,
                    self.search_path,
                    self.port,
                ),
            ),
            RepairPhase::Polling => RepairActionView::Poll { wait_ms: POLL_INTERVAL_MS },
            RepairPhase::Listing => RepairActionView::RunAfter {
                wait_ms: POLL_INTERVAL_MS,
                command: self.list_command(),
            },
            RepairPhase::Finished => RepairActionView::Finish(self.report()),
        }
    }

    /// After the old engine was ended. How the command ended does not
    /// matter: that there was nothing to end is no failure.
    pub open spec fn cleaned(self) -> RepairView {
        RepairView {
            phase: RepairPhase::Settling,
            lines: self.lines + seq![
                heading("1. Stopping any existing Ollama processes..."@),
                passed("Cleanup completed"@),
            ],
            ..self
        }
    }

    /// After the system has settled: the executable is the first
    /// installation path that exists. Without one the repair ends at
    /// once.
    pub open spec fn located(self) -> RepairView {
        match first_installed(self.candidates, self.exists, 0) {
            Some(index) => RepairView {
                phase: RepairPhase::Launching,
                executable: self.candidates[index].path,
                lines: self.lines + seq![
                    heading("2. Finding Ollama installation..."@),
                    passed("Found Ollama at: "@ + self.candidates[index].path),
                    heading("3. Starting Ollama service..."@),
                ],
                ..self
            },
            None => RepairView {
                phase: RepairPhase::Finished,
                lines: self.lines + seq![
                    heading("2. Finding Ollama installation..."@),
                    failed(
                        "Ollama executable not found in common locations. Please reinstall Ollama."@,
                    ),
                ],
                ..self
            },
        }
    }

    /// After the spawn. A spawn that failed ends the repair.
    pub open spec fn launched(self, result: Result<(), Seq<char>>) -> RepairView {
        match result {
            Ok(_) => RepairView {
                phase: RepairPhase::Polling,
                lines: self.lines + seq![
                    passed("Service start command executed"@),
                    heading("4. Verifying service is running..."@),
                ],
                ..self
            },
            Err(error) => RepairView {
                phase: RepairPhase::Finished,
                lines: self.lines + seq![failed("Failed to start service: "@ + error)],
                spawn_error: Some(error),
                ..self
            },
        }
    }

    /// The number of polls after one more.
    pub open spec fn next_poll(self) -> u32 {
        if self.polls < POLL_BUDGET {
            (self.polls + 1) as u32
        } else {
            POLL_BUDGET
        }
    }

    /// After one probe of the engine's health. A report that confirms that
    /// the engine serves, which takes an answer over the network, ends the
    /// polling. A process that is merely listed confirms nothing: straight
    /// after a spawn it is there whether or not the port ever opens. Any
    /// report that does not confirm counts against the budget, and the one
    /// that uses it up ends the repair as a failure.
    pub open spec fn polled(self, report: HealthReportView) -> RepairView {
        let polls = self.next_poll();
        if report.confirms() {
            RepairView {
                phase: RepairPhase::Listing,
                polls,
                lines: self.lines + seq![
                    passed(
                        "Service is running! (took "@ + decimal(polls as nat) + " seconds)"@,
                    ),
                    heading("5. Testing model listing..."@),
                ],
                ..self
            }
        } else if polls >= POLL_BUDGET {
            RepairView {
                phase: RepairPhase::Finished,
                polls,
                lines: self.lines + seq![
                    warning(
                        "Service was started but is not responding on port "@ + decimal(
                            self.port as nat,
                        ) + " after "@ + decimal(polls as nat) + " checks"@,
                    ),
                ] + message_notes(report.messages) + seq![
                    note("Try restarting the app or running 'ollama serve' manually"@),
                ],
                ..self
            }
        } else {
            RepairView { polls, ..self }
        }
    }

    /// What the listing adds to the report.
    pub open spec fn listing_line(completion: CompletionView) -> ReportLineView {
        match completion {
            CompletionView::Finished(output) => if output.success {
                passed(
                    "Model listing works! Found "@ + decimal(listed_line_count(output.stdout))
                        + " models"@,
                )
            } else {
                warning("Model listing not working yet, but service is running"@)
            },
            CompletionView::NotStarted(_) => warning(
                "Model listing not working yet, but service is running"@,
            ),
        }
    }

    /// After the listing. The repair has succeeded, whatever the listing
    /// gave.
    pub open spec fn listed(self, completion: CompletionView) -> RepairView {
        RepairView {
            phase: RepairPhase::Finished,
            success: true,
            lines: self.lines + seq![
                Self::listing_line(completion),
                heading("=== Fix Complete! ==="@),
                note("Your Ollama service should now be working properly."@),
                note("You can now select models and start chatting."@),
            ],
            ..self
        }
    }

    /// The repair after the caller's report. A report that the pending
    /// step does not wait for changes nothing, and neither does any report
    /// to a repair that has ended.
    pub open spec fn after(self, event: RepairEventView) -> RepairView {
        match (self.phase, event) {
            (RepairPhase::Terminating, RepairEventView::Completed(_)) => self.cleaned(),
            (RepairPhase::Settling, RepairEventView::Slept) => self.located(),
            (RepairPhase::Launching, RepairEventView::Spawned(result)) => self.launched(result),
            (RepairPhase::Polling, RepairEventView::Health(report)) => self.polled(report),
            (RepairPhase::Listing, RepairEventView::Completed(completion)) => self.listed(
                completion,
            ),
            _ => self,
        }
    }

    /// The repair after the engine's health was reported so many times in
    /// a row.
    pub open spec fn after_polls(self, reports: Seq<HealthReportView>) -> RepairView
        decreases reports.len(),
    {
        if reports.len() == 0 {
            self
        } else {
            self.after_polls(reports.drop_last()).after(RepairEventView::Health(reports.last()))
        }
    }
}

/// A repair.
pub struct RepairSession {
    platform: PlatformId,
    candidates: Vec<ExecutableCandidate>,
    exists: Vec<bool>,
    search_path: String,
    port: u16,
    phase: RepairPhase,
    executable: String,
    polls: u32,
    lines: Vec<ReportLine>,
    success: bool,
    spawn_error: Option<String>,
}

impl View for RepairSession {
    type V = RepairView;

    closed spec fn view(&self) -> RepairView {
        RepairView {
            platform: self.platform,
            candidates: candidates_view(self.candidates@),
            exists: self.exists@,
            search_path: self.search_path@,
            port: self.port,
            phase: self.phase,
            executable: self.executable@,
            polls: self.polls,
            lines: lines_view(self.lines@),
            success: self.success,
            spawn_error: match self.spawn_error {
                Some(error) => Some(error@),
                None => None,
            },
        }
    }
}

impl RepairSession {
    /// A repair over `candidates`, of which `exists` says for each whether
    /// its path is on disk. `port` is the engine's port as configured
    /// now.
    pub fn new(
        platform: PlatformId,
        candidates: Vec<ExecutableCandidate>,
        exists: Vec<bool>,
        search_path: String,
        port: u16,
    ) -> (r: RepairSession)
        ensures
            r@ == RepairView::initial(
                platform,
                candidates_view(candidates@),
                exists@,
                search_path@,
                port,
            ),
    {
        let mut lines: Vec<ReportLine> = Vec::new();
        push_line(
            &mut lines,
            StepMark::Heading,
            "=== Attempting to Fix Ollama Issues ===".to_string(),
        );
        assert(lines_view(lines@) =~= seq![heading("=== Attempting to Fix Ollama Issues ==="@)]);
        RepairSession {
            platform,
            candidates,
            exists,
            search_path,
            port,
            phase: RepairPhase::Terminating,
            executable: String::new(),
            polls: 0,
            lines,
            success: false,
            spawn_error: None,
        }
    }

    /// Why the repair failed; `None` while it runs and where it
    /// succeeded.
    pub fn failure(&self) -> (r: Option<SupervisorError>)
        ensures
            match r {
                Some(error) => self@.failure() == Some(error@),
                None => self@.failure() is None,
            },
    {
        if self.phase != RepairPhase::Finished || self.success {
            return None;
        }
        match &self.spawn_error {
            Some(error) => {
                let mut attempts: Vec<LaunchAttempt> = Vec::new();
                let attempt = LaunchAttempt {
                    strategy: LaunchStrategy::DetachedSpawn,
                    candidate: self.executable.clone(),
                    outcome: AttemptOutcome::SpawnFailed(error.clone()),
                };
                attempts.push(attempt);
                let failed = AggregateLaunchError { attempts };
                assert(failed@ =~= seq![self@.failed_attempt(error@)]);
                Some(SupervisorError::LaunchFailed(failed))
            },
            None => {
                if self.polls >= POLL_BUDGET {
                    Some(SupervisorError::Unreachable { port: self.port, polls: self.polls })
                } else {
                    Some(
                        make_not_installed(
                            "Ollama executable not found in common locations. Please reinstall Ollama.",
                            "",
                            "",
                        ),
                    )
                }
            },
        }
    }

    /// Whether the repair has ended.
    pub fn is_finished(&self) -> (r: bool)
        ensures
            r == (self@.phase == RepairPhase::Finished),
    {
        self.phase == RepairPhase::Finished
    }

    /// What the caller is to do next.
    pub fn pending(&self) -> (r: RepairAction)
        ensures
            r@ == self@.pending(),
    {
        match self.phase {
            RepairPhase::Terminating => RepairAction::Run(
                make_stop_command(self.platform, self.search_path.as_str()),
            ),
            RepairPhase::Settling => RepairAction::Sleep(SETTLE_MS),
            RepairPhase::Launching => RepairAction::Spawn(
                make_launch_command(
                    self.platform,
                    LaunchStrategy::DetachedSpawn,
                    self.executable.as_str(),
                    self.search_path.as_str(),
                    self.port,
                ),
            ),
            RepairPhase::Polling => RepairAction::Poll { wait_ms: POLL_INTERVAL_MS },
            RepairPhase::Listing => RepairAction::RunAfter {
                wait_ms: POLL_INTERVAL_MS,
                command: CommandLine {
                    program: self.executable.clone(),
                    args: list_args(),
                    env: make_engine_env(self.search_path.as_str(), self.port),
                    quiet: false,
                    no_window: false,
                },
            },
            RepairPhase::Finished => RepairAction::Finish(
                DiagnosticReport {
                    lines: copy_lines(&self.lines),
                    success: self.success,
                    polls: self.polls,
                },
            ),
        }
    }

    /// Takes the caller's report on the pending step.
    pub fn record(&mut self, event: RepairEvent)
        ensures
            final(self)@ == old(self)@.after(event@),
    {
        match (self.phase, event) {
            (RepairPhase::Terminating, RepairEvent::Completed(_)) => {
                push_line(
                    &mut self.lines,
                    StepMark::Heading,
                    "1. Stopping any existing Ollama processes...".to_string(),
                );
                push_line(&mut self.lines, StepMark::Passed, "Cleanup completed".to_string());
                self.phase = RepairPhase::Settling;
                assert(self@.lines =~= old(self)@.cleaned().lines);
            },
            (RepairPhase::Settling, RepairEvent::Slept) => {
                push_line(
                    &mut self.lines,
                    StepMark::Heading,
                    "2. Finding Ollama installation...".to_string(),
                );
                match locate_installed(&self.candidates, &self.exists) {
                    Some(index) => {
                        proof {
                            lemma_first_installed(candidates_view(self.candidates@), self.exists@, 0);
                        }
                        let path = self.candidates[index].path.clone();
                        let mut text = "Found Ollama at: ".to_string();
                        text.append(path.as_str());
                        push_line(&mut self.lines, StepMark::Passed, text);
                        push_line(
                            &mut self.lines,
                            StepMark::Heading,
                            "3. Starting Ollama service...".to_string(),
                        );
                        self.executable = path;
                        self.phase = RepairPhase::Launching;
                    },
                    None => {
                        push_line(
                            &mut self.lines,
                            StepMark::Failed,
                            "Ollama executable not found in common locations. Please reinstall Ollama.".to_string(),
                        );
                        self.phase = RepairPhase::Finished;
                    },
                }
                assert(self@.lines =~= old(self)@.located().lines);
            },
            (RepairPhase::Launching, RepairEvent::Spawned(result)) => {
                match result {
                    Ok(_) => {
                        push_line(
                            &mut self.lines,
                            StepMark::Passed,
                            "Service start command executed".to_string(),
                        );
                        push_line(
                            &mut self.lines,
                            StepMark::Heading,
                            "4. Verifying service is running...".to_string(),
                        );
                        self.phase = RepairPhase::Polling;
                        assert(self@.lines =~= old(self)@.launched(Ok(())).lines);
                    },
                    Err(error) => {
                        let mut text = "Failed to start service: ".to_string();
                        text.append(error.as_str());
                        push_line(&mut self.lines, StepMark::Failed, text);
                        self.spawn_error = Some(error);
                        self.phase = RepairPhase::Finished;
                        assert(self@.lines =~= old(self)@.launched(Err(error@)).lines);
                    },
                }
            },
            (RepairPhase::Polling, RepairEvent::Health(report)) => {
                let polls: u32 = if self.polls < POLL_BUDGET {
                    self.polls + 1
                } else {
                    POLL_BUDGET
                };
                self.polls = polls;
                if report.confirms_serving() {
                    let mut text = "Service is running! (took ".to_string();
                    append_number(&mut text, polls as u64);
                    text.append(" seconds)");
                    push_line(&mut self.lines, StepMark::Passed, text);
                    push_line(
                        &mut self.lines,
                        StepMark::Heading,
                        "5. Testing model listing...".to_string(),
                    );
                    self.phase = RepairPhase::Listing;
                } else if polls >= POLL_BUDGET {
                    let mut text = "Service was started but is not responding on port ".to_string();
                    append_number(&mut text, self.port as u64);
                    text.append(" after ");
                    append_number(&mut text, polls as u64);
                    text.append(" checks");
                    push_line(&mut self.lines, StepMark::Warning, text);
                    push_message_notes(&mut self.lines, &report.messages);
                    push_line(
                        &mut self.lines,
                        StepMark::Note,
                        "Try restarting the app or running 'ollama serve' manually".to_string(),
                    );
                    self.phase = RepairPhase::Finished;
                }
                assert(self@.lines =~= old(self)@.polled(report@).lines);
            },
            (RepairPhase::Listing, RepairEvent::Completed(completion)) => {
                let mut works: Option<usize> = None;
                match &completion {
                    Completion::Finished(output) => {
                        if output.success {
                            works = Some(count_listed_lines(output.stdout.as_str()));
                        }
                    },
                    Completion::NotStarted(_) => {},
                }
                match works {
                    Some(count) => {
                        let mut text = "Model listing works! Found ".to_string();
                        append_number(&mut text, count as u64);
                        text.append(" models");
                        push_line(&mut self.lines, StepMark::Passed, text);
                    },
                    None => {
                        push_line(
                            &mut self.lines,
                            StepMark::Warning,
                            "Model listing not working yet, but service is running".to_string(),
                        );
                    },
                }
                push_line(&mut self.lines, StepMark::Heading, "=== Fix Complete! ===".to_string());
                push_line(
                    &mut self.lines,
                    StepMark::Note,
                    "Your Ollama service should now be working properly.".to_string(),
                );
                push_line(
                    &mut self.lines,
                    StepMark::Note,
                    "You can now select models and start chatting.".to_string(),
                );
                self.phase = RepairPhase::Finished;
                self.success = true;
                assert(self@.lines =~= old(self)@.listed(completion@).lines);
            },
            _ => {},
        }
    }
}

/// While no report confirms that the engine serves and the budget is not
/// used up, the repair goes on polling and counts each probe.
pub proof fn lemma_polling_counts(repair: RepairView, reports: Seq<HealthReportView>)
    requires
        repair.phase == RepairPhase::Polling,
        repair.polls == 0,
        reports.len() < POLL_BUDGET,
        forall|j: int| 0 <= j < reports.len() ==> !reports[j].confirms(),
    ensures
        repair.after_polls(reports) == (RepairView { polls: reports.len() as u32, ..repair }),
    decreases reports.len(),
{
    if reports.len() > 0 {
        lemma_polling_counts(repair, reports.drop_last());
    }
}

/// A repair whose probes confirm for the first time at the `k`-th probe that
/// the engine serves, `k` within the budget, stops polling there, has
/// probed exactly `k` times, and ends as a success whatever the listing
/// gives; its report says so.
pub proof fn lemma_repair_succeeds_at_first_running(
    repair: RepairView,
    reports: Seq<HealthReportView>,
    listing: CompletionView,
)
    requires
        repair.phase == RepairPhase::Polling,
        repair.polls == 0,
        0 < reports.len() <= POLL_BUDGET,
        reports.last().confirms(),
        forall|j: int| 0 <= j < reports.len() - 1 ==> !reports[j].confirms(),
    ensures
        repair.after_polls(reports).phase == RepairPhase::Listing,
        repair.after_polls(reports).polls == reports.len(),
        repair.after_polls(reports).after(RepairEventView::Completed(listing)).pending()
            is Finish,
        repair.after_polls(reports).after(
            RepairEventView::Completed(listing),
        ).report().success,
        repair.after_polls(reports).after(RepairEventView::Completed(listing)).report().polls
            == reports.len(),
{
    lemma_polling_counts(repair, reports.drop_last());
}

/// A repair whose probes never confirm that the engine serves probes as
/// often as the budget allows and no more, and ends as a failure whose
/// report holds that number.
pub proof fn lemma_repair_gives_up_at_budget(repair: RepairView, reports: Seq<HealthReportView>)
    requires
        repair.phase == RepairPhase::Polling,
        repair.polls == 0,
        !repair.success,
        repair.spawn_error is None,
        reports.len() == POLL_BUDGET,
        forall|j: int| 0 <= j < reports.len() ==> !reports[j].confirms(),
    ensures
        repair.after_polls(reports).pending() is Finish,
        !repair.after_polls(reports).report().success,
        repair.after_polls(reports).report().polls == POLL_BUDGET,
        repair.after_polls(reports).failure() == Some(
            SupervisorErrorView::Unreachable { port: repair.port, polls: POLL_BUDGET },
        ),
        forall|status: HealthReportView|
            repair.after_polls(reports).after(RepairEventView::Health(status))
                == repair.after_polls(reports),
{
    lemma_polling_counts(repair, reports.drop_last());
}

/// An upper bound on the reports that a repair still takes before it has
/// ended.
pub open spec fn steps_left(repair: RepairView) -> nat {
    match repair.phase {
        RepairPhase::Terminating => (POLL_BUDGET + 4) as nat,
        RepairPhase::Settling => (POLL_BUDGET + 3) as nat,
        RepairPhase::Launching => (POLL_BUDGET + 2) as nat,
        RepairPhase::Polling => if repair.polls < POLL_BUDGET {
            (POLL_BUDGET - repair.polls + 1) as nat
        } else {
            2
        },
        RepairPhase::Listing => 1,
        RepairPhase::Finished => 0,
    }
}

/// No repair runs on without end: every report that a repair takes brings
/// it nearer to its end, and a repair has ended exactly where no step is
/// left. A repair takes fourteen reports at most.
pub proof fn lemma_repair_is_bounded(repair: RepairView, event: RepairEventView)
    ensures
        repair.after(event) == repair || steps_left(repair.after(event)) < steps_left(repair),
        steps_left(repair) == 0 <==> repair.phase == RepairPhase::Finished,
        steps_left(repair) <= 14,
        repair.phase == RepairPhase::Finished ==> repair.pending() is Finish,
{
}

} // verus!
