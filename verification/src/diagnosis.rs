//! Finding out why the engine does not work.
//!
//! A diagnosis looks at everything the supervisor depends on, in a fixed
//! order, and writes down what it sees: whether the engine is installed in
//! one of the known places, whether the search path leads to it, which
//! version it is, whether it answers on its port, and whether the system
//! lists its process. Where the engine does not answer and an executable was
//! found, the diagnosis tries once to start it. A diagnosis changes nothing
//! else and always ends in a report.
//!
//! The port that is looked at is the one that was configured when the
//! diagnosis began, in every step.
//!
//! The session runs nothing itself: it names what to do next (`pending`)
//! and is told the result (`record`).

use vstd::prelude::*;
use vstd::string::StringExecFns;
use crate::command::{
    engine_env, make_engine_env, make_tool_env, plain_command, push_arg, tool_env, CommandLine,
    CommandLineView, Completion, CompletionView,
};
use crate::decimal::decimal;
use crate::errors::append_number;
use crate::health::{
    judge_process_table, make_process_table_command, process_outcome, process_table_command,
    system_message, TierOutcome,
};
use crate::launch::{launch_command, make_launch_command, LaunchStrategy};
use crate::models::version_args;
use crate::paths::{
    candidates_view, first_installed, lemma_first_installed, locate_installed, CandidateView,
    ExecutableCandidate,
};
use crate::platform::PlatformId;
use crate::port::{api_url, get_ollama_api_url, get_socket_address, socket_address, PortConfig};
use crate::report::{
    copy_lines, failed, heading, lines_view, note, passed, push_line, warning, DiagnosticReport,
    DiagnosticReportView, ReportLine, ReportLineView, StepMark,
};
use crate::text::{chars_of, contains, contains_in, string_of};
use crate::words::{texts, trim, trim_text};

verus! {

/// How long the connection to the engine's port may take, in milliseconds.
pub const CONNECT_TIMEOUT_MS: u32 = 1000;

/// How long the engine is given after the diagnosis has started it, in
/// milliseconds.
pub const START_GRACE_MS: u64 = 3000;

/// Where a diagnosis stands.
#[derive(Clone, Copy, PartialEq, Eq, Debug, Structural)]
pub enum DiagnosisPhase {
    /// The search path is being asked for the engine.
    SearchPath,
    /// The engine is being asked for its version.
    Version,
    /// The engine's port is being dialled.
    Socket,
    /// The engine's HTTP interface is being asked for its models.
    Api,
    /// The engine is being started.
    Starting,
    /// The started engine is given time.
    Grace,
    /// The engine's port is being dialled again.
    SocketAgain,
    /// The system is being asked for the engine's process.
    ProcessTable,
    /// The diagnosis has ended.
    Finished,
}

/// What the caller of a diagnosis is to do next.
pub enum DiagnosisAction {
    /// Run this command to its end and report how it ended.
    Run(CommandLine),
    /// Try to connect to this socket address within so many milliseconds,
    /// and report whether the connection came about.
    Connect { address: String, timeout_ms: u32 },
    /// Spawn this command, do not wait for it, and report how the spawn went.
    Spawn(CommandLine),
    /// Wait for so many milliseconds and report that the time has passed.
    Sleep(u64),
    /// The diagnosis has ended; this is its report.
    Finish(DiagnosticReport),
}

pub enum DiagnosisActionView {
    Run(CommandLineView),
    Connect { address: Seq<char>, timeout_ms: u32 },
    Spawn(CommandLineView),
    Sleep(u64),
    Finish(DiagnosticReportView),
}

impl View for DiagnosisAction {
    type V = DiagnosisActionView;

    open spec fn view(&self) -> DiagnosisActionView {
        match self {
            DiagnosisAction::Run(command) => DiagnosisActionView::Run(command@),
            DiagnosisAction::Connect { address, timeout_ms } => DiagnosisActionView::Connect {
                address: address@,
                timeout_ms: *timeout_ms,
            },
            DiagnosisAction::Spawn(command) => DiagnosisActionView::Spawn(command@),
            DiagnosisAction::Sleep(ms) => DiagnosisActionView::Sleep(*ms),
            DiagnosisAction::Finish(report) => DiagnosisActionView::Finish(report@),
        }
    }
}

/// What the caller reports to a diagnosis.
pub enum DiagnosisEvent {
    /// How the command ended.
    Completed(Completion),
    /// Whether the connection came about.
    Connected(bool),
    /// How the spawn went: `Ok`, or the system's message.
    Spawned(Result<(), String>),
    /// The time has passed.
    Slept,
}

pub enum DiagnosisEventView {
    Completed(CompletionView),
    Connected(bool),
    Spawned(Result<(), Seq<char>>),
    Slept,
}

impl View for DiagnosisEvent {
    type V = DiagnosisEventView;

    open spec fn view(&self) -> DiagnosisEventView {
        match self {
            DiagnosisEvent::Completed(completion) => DiagnosisEventView::Completed(completion@),
            DiagnosisEvent::Connected(connected) => DiagnosisEventView::Connected(*connected),
            DiagnosisEvent::Spawned(result) => DiagnosisEventView::Spawned(
                match result {
                    Ok(_) => Ok(()),
                    Err(error) => Err(error@),
                },
            ),
            DiagnosisEvent::Slept => DiagnosisEventView::Slept,
        }
    }
}

/// The lines that tell of each installation path whether it exists, in the
/// order of the candidates. The bare command name is no installation path
/// and gets no line.
pub open spec fn installation_lines(candidates: Seq<CandidateView>, exists: Seq<bool>) -> Seq<
    ReportLineView,
>
    decreases candidates.len(),
{
    if candidates.len() == 0 {
        Seq::empty()
    } else {
        let last = candidates.len() - 1;
        let before = installation_lines(candidates.drop_last(), exists);
        if !candidates[last].is_absolute {
            before
        } else if last < exists.len() && exists[last] {
            before.push(passed("Found: "@ + candidates[last].path))
        } else {
            before.push(failed("Not found: "@ + candidates[last].path))
        }
    }
}

/// The command that asks the search path for the engine.
pub open spec fn search_command(platform: PlatformId, search_path: Seq<char>) -> CommandLineView {
    if platform == PlatformId::Windows {
        plain_command("where"@, seq!["ollama.exe"@], tool_env(search_path))
    } else {
        plain_command("which"@, seq!["ollama"@], tool_env(search_path))
    }
}

/// The command that asks the engine's HTTP interface for its models, with
/// five seconds to connect.
pub open spec fn api_command(search_path: Seq<char>, port: u16) -> CommandLineView {
    plain_command(
        "curl"@,
        seq!["-s"@, "--connect-timeout"@, "5"@, api_url(port, "tags"@)],
        tool_env(search_path),
    )
}

/// What the system said where a command could not be started, as a line of
/// its own, word for word; nothing where the command ran.
pub open spec fn system_notes(completion: CompletionView) -> Seq<ReportLineView> {
    match system_message(completion) {
        Some(text) => seq![note(text)],
        None => Seq::empty(),
    }
}

fn push_system_notes(lines: &mut Vec<ReportLine>, completion: &Completion)
    ensures
        lines_view(final(lines)@) == lines_view(old(lines)@) + system_notes(completion@),
{
    match completion {
        Completion::Finished(_) => {
            assert(lines_view(lines@) =~= lines_view(old(lines)@) + system_notes(completion@));
        },
        Completion::NotStarted(error) => {
            push_line(lines, StepMark::Note, error.clone());
            assert(lines_view(lines@) =~= lines_view(old(lines)@) + system_notes(completion@));
        },
    }
}

/// The state of a diagnosis.
pub struct DiagnosisView {
    pub platform: PlatformId,
    pub candidates: Seq<CandidateView>,
    /// For each candidate, whether its path exists on disk.
    pub exists: Seq<bool>,
    pub search_path: Seq<char>,
    pub port: u16,
    pub phase: DiagnosisPhase,
    /// How often the engine's port was dialled.
    pub polls: u32,
    /// The lines of the report so far.
    pub lines: Seq<ReportLineView>,
    /// Whether the engine answered on its port.
    pub success: bool,
}

impl DiagnosisView {
    /// The first installation path that exists, where there is one.
    pub open spec fn executable(self) -> Option<Seq<char>> {
        match first_installed(self.candidates, self.exists, 0) {
            Some(index) => Some(self.candidates[index].path),
            None => None,
        }
    }

    /// The diagnosis before its first step: the installation paths are
    /// told already, since the caller has looked for them.
    pub open spec fn initial(
        platform: PlatformId,
        candidates: Seq<CandidateView>,
        exists: Seq<bool>,
        search_path: Seq<char>,
        port: u16,
    ) -> DiagnosisView {
        DiagnosisView {
            platform,
            candidates,
            exists,
            search_path,
            port,
            phase: DiagnosisPhase::SearchPath,
            polls: 0,
            lines: seq![
                heading("=== Ollama Diagnosis ==="@),
                heading("1. Checking Ollama installation paths:"@),
            ] + installation_lines(candidates, exists) + seq![
                heading("2. Checking if Ollama is accessible via PATH:"@),
            ],
            success: false,
        }
    }

    pub open spec fn report(self) -> DiagnosticReportView {
        DiagnosticReportView { lines: self.lines, success: self.success, polls: self.polls }
    }

    /// The command that asks the executable that was found for its
    /// version.
    pub open spec fn version_command(self) -> CommandLineView {
        plain_command(
            match self.executable() {
                Some(path) => path,
                None => Seq::empty(),
            },
            seq!["--version"@],
            engine_env(self.search_path, self.port),
        )
    }

    /// The command that starts the executable that was found.
    pub open spec fn start_command(self) -> CommandLineView {
        launch_command(
            self.platform,
            LaunchStrategy::DetachedSpawn,
            match self.executable() {
                Some(path) => path,
                None => Seq::empty(),
            },
            self.search_path,
            self.port,
        )
    }

    /// What the caller is to do next.
    pub open spec fn pending(self) -> DiagnosisActionView {
        match self.phase {
            DiagnosisPhase::SearchPath => DiagnosisActionView::Run(
                search_command(self.platform, self.search_path),
            ),
            DiagnosisPhase::Version => DiagnosisActionView::Run(self.version_command()),
            DiagnosisPhase::Socket | DiagnosisPhase::SocketAgain => DiagnosisActionView::Connect {
                address: socket_address(self.port),
                timeout_ms: CONNECT_TIMEOUT_MS,
            },
            DiagnosisPhase::Api => DiagnosisActionView::Run(
                api_command(self.search_path, self.port),
            ),
            DiagnosisPhase::Starting => DiagnosisActionView::Spawn(self.start_command()),
            DiagnosisPhase::Grace => DiagnosisActionView::Sleep(START_GRACE_MS),
            DiagnosisPhase::ProcessTable => DiagnosisActionView::Run(
                process_table_command(self.platform, self.search_path),
            ),
            DiagnosisPhase::Finished => DiagnosisActionView::Finish(self.report()),
        }
    }

    /// What the search path's answer adds to the report.
    pub open spec fn search_line(completion: CompletionView) -> ReportLineView {
        match completion {
            CompletionView::Finished(output) => if output.success {
                passed("Ollama found in PATH: "@ + trim(output.stdout))
            } else {
                failed("Ollama not found in PATH"@)
            },
            CompletionView::NotStarted(_) => failed("Ollama not found in PATH"@),
        }
    }

    /// After the search path was asked. The version is asked next where
    /// an executable was found, else the port is dialled.
    pub open spec fn searched(self, completion: CompletionView) -> DiagnosisView {
        let lines = self.lines + seq![Self::search_line(completion)] + system_notes(completion)
            + seq![heading("3. Checking Ollama version:"@)];
        if self.executable() is Some {
            DiagnosisView { phase: DiagnosisPhase::Version, lines, ..self }
        } else {
            DiagnosisView {
                phase: DiagnosisPhase::Socket,
                lines: lines + seq![heading("4. Checking if Ollama service is running:"@)],
                ..self
            }
        }
    }

    /// What the engine's answer to `--version` adds to the report.
    pub open spec fn version_line(completion: CompletionView) -> ReportLineView {
        match completion {
            CompletionView::Finished(output) => if output.success {
                passed("Version: "@ + trim(output.stdout))
            } else {
                failed("Version check failed: "@ + trim(output.stderr))
            },
            CompletionView::NotStarted(error) => failed("Failed to run version check: "@ + error),
        }
    }

    /// After the version was asked.
    pub open spec fn versioned(self, completion: CompletionView) -> DiagnosisView {
        DiagnosisView {
            phase: DiagnosisPhase::Socket,
            lines: self.lines + seq![
                Self::version_line(completion),
                heading("4. Checking if Ollama service is running:"@),
            ],
            ..self
        }
    }

    /// The number of dials after one more.
    pub open spec fn next_poll(self) -> u32 {
        if self.polls < u32::MAX {
            (self.polls + 1) as u32
        } else {
            self.polls
        }
    }

    /// After the port was dialled for the first time. An engine that
    /// answers is asked for its models; one that does not is started, where
    /// an executable was found.
    pub open spec fn dialled(self, connected: bool) -> DiagnosisView {
        if connected {
            DiagnosisView {
                phase: DiagnosisPhase::Api,
                polls: self.next_poll(),
                success: true,
                lines: self.lines + seq![
                    passed("Ollama service is responding on port "@ + decimal(self.port as nat)),
                    heading("5. Checking if models can be listed via API:"@),
                ],
                ..self
            }
        } else {
            let lines = self.lines + seq![
                failed("Ollama service is NOT running on port "@ + decimal(self.port as nat)),
                heading("5. Attempting to start Ollama service:"@),
            ];
            match self.executable() {
                Some(path) => DiagnosisView {
                    phase: DiagnosisPhase::Starting,
                    polls: self.next_poll(),
                    lines: lines + seq![note("Trying to start: "@ + path + " serve"@)],
                    ..self
                },
                None => DiagnosisView {
                    phase: DiagnosisPhase::ProcessTable,
                    polls: self.next_poll(),
                    lines: lines + seq![heading("6. Checking for the Ollama process:"@)],
                    ..self
                },
            }
        }
    }

    /// What the answer of the HTTP interface adds to the report.
    pub open spec fn api_lines(completion: CompletionView) -> Seq<ReportLineView> {
        match completion {
            CompletionView::Finished(output) => if !output.success {
                seq![failed("API not accessible or curl not available"@)]
            } else if contains(output.stdout, "models"@) {
                seq![
                    passed("API is working, models endpoint accessible"@),
                    note("API Response: "@ + trim(output.stdout)),
                ]
            } else {
                seq![
                    warning("API responded but no models found"@),
                    note("Response: "@ + trim(output.stdout)),
                ]
            },
            CompletionView::NotStarted(_) => seq![
                failed("API not accessible or curl not available"@),
            ],
        }
    }

    /// After the HTTP interface was asked.
    pub open spec fn asked(self, completion: CompletionView) -> DiagnosisView {
        DiagnosisView {
            phase: DiagnosisPhase::ProcessTable,
            lines: self.lines + Self::api_lines(completion) + system_notes(completion) + seq![
                heading("6. Checking for the Ollama process:"@),
            ],
            ..self
        }
    }

    /// After the spawn.
    pub open spec fn spawned(self, result: Result<(), Seq<char>>) -> DiagnosisView {
        match result {
            Ok(_) => DiagnosisView {
                phase: DiagnosisPhase::Grace,
                lines: self.lines + seq![passed("Service start command executed"@)],
                ..self
            },
            Err(error) => DiagnosisView {
                phase: DiagnosisPhase::ProcessTable,
                lines: self.lines + seq![
                    failed("Failed to start service: "@ + error),
                    heading("6. Checking for the Ollama process:"@),
                ],
                ..self
            },
        }
    }

    /// After the port was dialled again.
    pub open spec fn redialled(self, connected: bool) -> DiagnosisView {
        DiagnosisView {
            phase: DiagnosisPhase::ProcessTable,
            polls: self.next_poll(),
            success: connected,
            lines: self.lines + seq![
                if connected {
                    passed("Service is now running!"@)
                } else {
                    warning("Service started but not responding yet"@)
                },
                heading("6. Checking for the Ollama process:"@),
            ],
            ..self
        }
    }

    /// What the system's answer about the engine's process adds to the
    /// report.
    pub open spec fn process_line(platform: PlatformId, completion: CompletionView) -> ReportLineView {
        match process_outcome(platform, completion) {
            TierOutcome::Positive => passed("Ollama process is running"@),
            TierOutcome::Negative => failed("Ollama process not found"@),
            TierOutcome::Unavailable => failed("Could not check process list"@),
        }
    }

    /// After the system was asked for the engine's process: the diagnosis
    /// ends.
    pub open spec fn looked(self, completion: CompletionView) -> DiagnosisView {
        DiagnosisView {
            phase: DiagnosisPhase::Finished,
            lines: self.lines + seq![Self::process_line(self.platform, completion)]
                + system_notes(completion) + seq![heading("=== End Diagnosis ==="@)],
            ..self
        }
    }

    /// The diagnosis after the caller's report. A report that the pending
    /// step does not wait for changes nothing, and neither does any report
    /// to a diagnosis that has ended.
    pub open spec fn after(self, event: DiagnosisEventView) -> DiagnosisView {
        match (self.phase, event) {
            (DiagnosisPhase::SearchPath, DiagnosisEventView::Completed(c)) => self.searched(c),
            (DiagnosisPhase::Version, DiagnosisEventView::Completed(c)) => self.versioned(c),
            (DiagnosisPhase::Socket, DiagnosisEventView::Connected(b)) => self.dialled(b),
            (DiagnosisPhase::Api, DiagnosisEventView::Completed(c)) => self.asked(c),
            (DiagnosisPhase::Starting, DiagnosisEventView::Spawned(r)) => self.spawned(r),
            (DiagnosisPhase::Grace, DiagnosisEventView::Slept) => DiagnosisView {
                phase: DiagnosisPhase::SocketAgain,
                ..self
            },
            (DiagnosisPhase::SocketAgain, DiagnosisEventView::Connected(b)) => self.redialled(b),
            (DiagnosisPhase::ProcessTable, DiagnosisEventView::Completed(c)) => self.looked(c),
            _ => self,
        }
    }
}

/// A diagnosis.
pub struct DiagnosisSession {
    platform: PlatformId,
    candidates: Vec<ExecutableCandidate>,
    exists: Vec<bool>,
    search_path: String,
    config: PortConfig,
    phase: DiagnosisPhase,
    polls: u32,
    lines: Vec<ReportLine>,
    success: bool,
}

impl View for DiagnosisSession {
    type V = DiagnosisView;

    closed spec fn view(&self) -> DiagnosisView {
        DiagnosisView {
            platform: self.platform,
            candidates: candidates_view(self.candidates@),
            exists: self.exists@,
            search_path: self.search_path@,
            port: self.config@,
            phase: self.phase,
            polls: self.polls,
            lines: lines_view(self.lines@),
            success: self.success,
        }
    }
}

fn trimmed(text: &str) -> (r: String)
    ensures
        r@ == trim(text@),
{
    string_of(trim_text(chars_of(text).as_slice()).as_slice())
}

fn labelled(label: &str, text: &str) -> (r: String)
    ensures
        r@ == label@ + text@,
{
    let mut r = label.to_string();
    r.append(text);
    r
}

fn push_installation_lines(
    lines: &mut Vec<ReportLine>,
    candidates: &Vec<ExecutableCandidate>,
    exists: &Vec<bool>,
)
    ensures
        lines_view(final(lines)@) == lines_view(old(lines)@) + installation_lines(
            candidates_view(candidates@),
            exists@,
        ),
{
    let mut i: usize = 0;
    assert(installation_lines(candidates_view(candidates@).take(0), exists@) =~= Seq::empty());
    while i < candidates.len()
        invariant
            i <= candidates.len(),
            lines_view(lines@) == lines_view(old(lines)@) + installation_lines(
                candidates_view(candidates@).take(i as int),
                exists@,
            ),
        decreases candidates.len() - i,
    {
        let ghost next = candidates_view(candidates@).take(i + 1);
        assert(next.drop_last() == candidates_view(candidates@).take(i as int));
        assert(next[i as int] == candidates@[i as int]@);
        if candidates[i].is_absolute {
            if i < exists.len() && exists[i] {
                push_line(lines, StepMark::Passed, labelled("Found: ", candidates[i].path.as_str()));
            } else {
                push_line(
                    lines,
                    StepMark::Failed,
                    labelled("Not found: ", candidates[i].path.as_str()),
                );
            }
        }
        assert(lines_view(lines@) =~= lines_view(old(lines)@) + installation_lines(next, exists@));
        i += 1;
    }
    assert(candidates_view(candidates@).take(candidates.len() as int) == candidates_view(
        candidates@,
    ));
}

impl DiagnosisSession {
    /// A diagnosis over `candidates`, of which `exists` says for each
    /// whether its path is on disk. `config` holds the engine's port.
    pub fn new(
        platform: PlatformId,
        candidates: Vec<ExecutableCandidate>,
        exists: Vec<bool>,
        search_path: String,
        config: &PortConfig,
    ) -> (r: DiagnosisSession)
        ensures
            r@ == DiagnosisView::initial(
                platform,
                candidates_view(candidates@),
                exists@,
                search_path@,
                config@,
            ),
    {
        let mut lines: Vec<ReportLine> = Vec::new();
        push_line(&mut lines, StepMark::Heading, "=== Ollama Diagnosis ===".to_string());
        push_line(
            &mut lines,
            StepMark::Heading,
            "1. Checking Ollama installation paths:".to_string(),
        );
        push_installation_lines(&mut lines, &candidates, &exists);
        push_line(
            &mut lines,
            StepMark::Heading,
            "2. Checking if Ollama is accessible via PATH:".to_string(),
        );
        assert(lines_view(lines@) =~= DiagnosisView::initial(
            platform,
            candidates_view(candidates@),
            exists@,
            search_path@,
            config@,
        ).lines);
        DiagnosisSession {
            platform,
            candidates,
            exists,
            search_path,
            config: *config,
            phase: DiagnosisPhase::SearchPath,
            polls: 0,
            lines,
            success: false,
        }
    }

    /// Whether the diagnosis has ended.
    pub fn is_finished(&self) -> (r: bool)
        ensures
            r == (self@.phase == DiagnosisPhase::Finished),
    {
        self.phase == DiagnosisPhase::Finished
    }

    /// The first installation path that exists.
    fn executable(&self) -> (r: Option<String>)
        ensures
            match r {
                Some(path) => self@.executable() == Some(path@),
                None => self@.executable() is None,
            },
    {
        match locate_installed(&self.candidates, &self.exists) {
            Some(index) => {
                proof {
                    lemma_first_installed(candidates_view(self.candidates@), self.exists@, 0);
                }
                Some(self.candidates[index].path.clone())
            },
            None => None,
        }
    }

    fn executable_or_empty(&self) -> (r: String)
        ensures
            r@ == match self@.executable() {
                Some(path) => path,
                None => Seq::empty(),
            },
    {
        match self.executable() {
            Some(path) => path,
            None => String::new(),
        }
    }

    /// What the caller is to do next.
    pub fn pending(&self) -> (r: DiagnosisAction)
        ensures
            r@ == self@.pending(),
    {
        match self.phase {
            DiagnosisPhase::SearchPath => {
                let mut args: Vec<String> = Vec::new();
                if self.platform == PlatformId::Windows {
                    push_arg(&mut args, "ollama.exe");
                    assert(texts(args@) =~= seq!["ollama.exe"@]);
                    DiagnosisAction::Run(
                        CommandLine {
                            program: "where".to_string(),
                            args,
                            env: make_tool_env(self.search_path.as_str()),
                            quiet: false,
                            no_window: false,
                        },
                    )
                } else {
                    push_arg(&mut args, "ollama");
                    assert(texts(args@) =~= seq!["ollama"@]);
                    DiagnosisAction::Run(
                        CommandLine {
                            program: "which".to_string(),
                            args,
                            env: make_tool_env(self.search_path.as_str()),
                            quiet: false,
                            no_window: false,
                        },
                    )
                }
            },
            DiagnosisPhase::Version => DiagnosisAction::Run(
                CommandLine {
                    program: self.executable_or_empty(),
                    args: version_args(),
                    env: make_engine_env(self.search_path.as_str(), self.config.port()),
                    quiet: false,
                    no_window: false,
                },
            ),
            DiagnosisPhase::Socket | DiagnosisPhase::SocketAgain => DiagnosisAction::Connect {
                address: get_socket_address(&self.config),
                timeout_ms: CONNECT_TIMEOUT_MS,
            },
            DiagnosisPhase::Api => {
                let mut args: Vec<String> = Vec::new();
                push_arg(&mut args, "-s");
                push_arg(&mut args, "--connect-timeout");
                push_arg(&mut args, "5");
                push_arg(&mut args, get_ollama_api_url(&self.config, "tags").as_str());
                assert(texts(args@) =~= api_command(self@.search_path, self@.port).args);
                DiagnosisAction::Run(
                    CommandLine {
                        program: "curl".to_string(),
                        args,
                        env: make_tool_env(self.search_path.as_str()),
                        quiet: false,
                        no_window: false,
                    },
                )
            },
            DiagnosisPhase::Starting => DiagnosisAction::Spawn(
                make_launch_command(
                    self.platform,
                    LaunchStrategy::DetachedSpawn,
                    self.executable_or_empty().as_str(),
                    self.search_path.as_str(),
                    self.config.port(),
                ),
            ),
            DiagnosisPhase::Grace => DiagnosisAction::Sleep(START_GRACE_MS),
            DiagnosisPhase::ProcessTable => DiagnosisAction::Run(
                make_process_table_command(self.platform, self.search_path.as_str()),
            ),
            DiagnosisPhase::Finished => DiagnosisAction::Finish(
                DiagnosticReport {
                    lines: copy_lines(&self.lines),
                    success: self.success,
                    polls: self.polls,
                },
            ),
        }
    }

    fn count_poll(&mut self)
        ensures
            final(self)@ == (DiagnosisView { polls: old(self)@.next_poll(), ..old(self)@ }),
    {
        if self.polls < u32::MAX {
            self.polls = self.polls + 1;
        }
    }

    fn open_process_part(&mut self)
        ensures
            final(self)@ == (DiagnosisView {
                phase: DiagnosisPhase::ProcessTable,
                lines: old(self)@.lines.push(heading("6. Checking for the Ollama process:"@)),
                ..old(self)@
            }),
    {
        push_line(
            &mut self.lines,
            StepMark::Heading,
            "6. Checking for the Ollama process:".to_string(),
        );
        self.phase = DiagnosisPhase::ProcessTable;
    }

    /// Takes the caller's report on the pending step.
    pub fn record(&mut self, event: DiagnosisEvent)
        ensures
            final(self)@ == old(self)@.after(event@),
    {
        match (self.phase, event) {
            (DiagnosisPhase::SearchPath, DiagnosisEvent::Completed(completion)) => {
                let mut found: Option<String> = None;
                match &completion {
                    Completion::Finished(output) => {
                        if output.success {
                            found = Some(trimmed(output.stdout.as_str()));
                        }
                    },
                    Completion::NotStarted(_) => {},
                }
                match found {
                    Some(place) => push_line(
                        &mut self.lines,
                        StepMark::Passed,
                        labelled("Ollama found in PATH: ", place.as_str()),
                    ),
                    None => push_line(
                        &mut self.lines,
                        StepMark::Failed,
                        "Ollama not found in PATH".to_string(),
                    ),
                }
                push_system_notes(&mut self.lines, &completion);
                push_line(&mut self.lines, StepMark::Heading, "3. Checking Ollama version:".to_string());
                if self.executable().is_some() {
                    self.phase = DiagnosisPhase::Version;
                } else {
                    push_line(
                        &mut self.lines,
                        StepMark::Heading,
                        "4. Checking if Ollama service is running:".to_string(),
                    );
                    self.phase = DiagnosisPhase::Socket;
                }
                assert(self@.lines =~= old(self)@.searched(completion@).lines);
            },
            (DiagnosisPhase::Version, DiagnosisEvent::Completed(completion)) => {
                match &completion {
                    Completion::Finished(output) => {
                        if output.success {
                            push_line(
                                &mut self.lines,
                                StepMark::Passed,
                                labelled("Version: ", trimmed(output.stdout.as_str()).as_str()),
                            );
                        } else {
                            push_line(
                                &mut self.lines,
                                StepMark::Failed,
                                labelled(
                                    "Version check failed: ",
                                    trimmed(output.stderr.as_str()).as_str(),
                                ),
                            );
                        }
                    },
                    Completion::NotStarted(error) => {
                        push_line(
                            &mut self.lines,
                            StepMark::Failed,
                            labelled("Failed to run version check: ", error.as_str()),
                        );
                    },
                }
                push_line(
                    &mut self.lines,
                    StepMark::Heading,
                    "4. Checking if Ollama service is running:".to_string(),
                );
                self.phase = DiagnosisPhase::Socket;
                assert(self@.lines =~= old(self)@.versioned(completion@).lines);
            },
            (DiagnosisPhase::Socket, DiagnosisEvent::Connected(connected)) => {
                self.count_poll();
                if connected {
                    let mut text = "Ollama service is responding on port ".to_string();
                    append_number(&mut text, self.config.port() as u64);
                    push_line(&mut self.lines, StepMark::Passed, text);
                    push_line(
                        &mut self.lines,
                        StepMark::Heading,
                        "5. Checking if models can be listed via API:".to_string(),
                    );
                    self.success = true;
                    self.phase = DiagnosisPhase::Api;
                } else {
                    let mut text = "Ollama service is NOT running on port ".to_string();
                    append_number(&mut text, self.config.port() as u64);
                    push_line(&mut self.lines, StepMark::Failed, text);
                    push_line(
                        &mut self.lines,
                        StepMark::Heading,
                        "5. Attempting to start Ollama service:".to_string(),
                    );
                    match self.executable() {
                        Some(path) => {
                            let mut text = labelled("Trying to start: ", path.as_str());
                            text.append(" serve");
                            push_line(&mut self.lines, StepMark::Note, text);
                            self.phase = DiagnosisPhase::Starting;
                        },
                        None => {
                            self.open_process_part();
                        },
                    }
                }
                assert(self@.lines =~= old(self)@.dialled(connected).lines);
            },
            (DiagnosisPhase::Api, DiagnosisEvent::Completed(completion)) => {
                let mut answer: Option<String> = None;
                match &completion {
                    Completion::Finished(output) => {
                        if output.success {
                            answer = Some(output.stdout.clone());
                        }
                    },
                    Completion::NotStarted(_) => {},
                }
                match answer {
                    None => push_line(
                        &mut self.lines,
                        StepMark::Failed,
                        "API not accessible or curl not available".to_string(),
                    ),
                    Some(body) => {
                        if contains_in(
                            chars_of(body.as_str()).as_slice(),
                            chars_of("models").as_slice(),
                        ) {
                            push_line(
                                &mut self.lines,
                                StepMark::Passed,
                                "API is working, models endpoint accessible".to_string(),
                            );
                            push_line(
                                &mut self.lines,
                                StepMark::Note,
                                labelled("API Response: ", trimmed(body.as_str()).as_str()),
                            );
                        } else {
                            push_line(
                                &mut self.lines,
                                StepMark::Warning,
                                "API responded but no models found".to_string(),
                            );
                            push_line(
                                &mut self.lines,
                                StepMark::Note,
                                labelled("Response: ", trimmed(body.as_str()).as_str()),
                            );
                        }
                    },
                }
                push_system_notes(&mut self.lines, &completion);
                self.open_process_part();
                assert(self@.lines =~= old(self)@.asked(completion@).lines);
            },
            (DiagnosisPhase::Starting, DiagnosisEvent::Spawned(result)) => {
                match result {
                    Ok(_) => {
                        push_line(
                            &mut self.lines,
                            StepMark::Passed,
                            "Service start command executed".to_string(),
                        );
                        self.phase = DiagnosisPhase::Grace;
                        assert(self@.lines =~= old(self)@.spawned(Ok(())).lines);
                    },
                    Err(error) => {
                        push_line(
                            &mut self.lines,
                            StepMark::Failed,
                            labelled("Failed to start service: ", error.as_str()),
                        );
                        self.open_process_part();
                        assert(self@.lines =~= old(self)@.spawned(Err(error@)).lines);
                    },
                }
            },
            (DiagnosisPhase::Grace, DiagnosisEvent::Slept) => {
                self.phase = DiagnosisPhase::SocketAgain;
            },
            (DiagnosisPhase::SocketAgain, DiagnosisEvent::Connected(connected)) => {
                self.count_poll();
                if connected {
                    push_line(&mut self.lines, StepMark::Passed, "Service is now running!".to_string());
                } else {
                    push_line(
                        &mut self.lines,
                        StepMark::Warning,
                        "Service started but not responding yet".to_string(),
                    );
                }
                self.success = connected;
                self.open_process_part();
                assert(self@.lines =~= old(self)@.redialled(connected).lines);
            },
            (DiagnosisPhase::ProcessTable, DiagnosisEvent::Completed(completion)) => {
                match judge_process_table(self.platform, &completion) {
                    TierOutcome::Positive => push_line(
                        &mut self.lines,
                        StepMark::Passed,
                        "Ollama process is running".to_string(),
                    ),
                    TierOutcome::Negative => push_line(
                        &mut self.lines,
                        StepMark::Failed,
                        "Ollama process not found".to_string(),
                    ),
                    TierOutcome::Unavailable => push_line(
                        &mut self.lines,
                        StepMark::Failed,
                        "Could not check process list".to_string(),
                    ),
                }
                push_system_notes(&mut self.lines, &completion);
                push_line(&mut self.lines, StepMark::Heading, "=== End Diagnosis ===".to_string());
                self.phase = DiagnosisPhase::Finished;
                assert(self@.lines =~= old(self)@.looked(completion@).lines);
            },
            _ => {},
        }
    }
}

/// An upper bound on the reports that a diagnosis still takes before it
/// has ended.
pub open spec fn steps_left(diagnosis: DiagnosisView) -> nat {
    match diagnosis.phase {
        DiagnosisPhase::SearchPath => 8,
        DiagnosisPhase::Version => 7,
        DiagnosisPhase::Socket => 6,
        DiagnosisPhase::Starting => 5,
        DiagnosisPhase::Grace => 4,
        DiagnosisPhase::SocketAgain => 3,
        DiagnosisPhase::Api => 2,
        DiagnosisPhase::ProcessTable => 1,
        DiagnosisPhase::Finished => 0,
    }
}

/// Every diagnosis ends in a report: each report that it takes brings it
/// nearer to its end, and it has ended exactly where no step is left.
pub proof fn lemma_diagnosis_is_bounded(diagnosis: DiagnosisView, event: DiagnosisEventView)
    ensures
        diagnosis.after(event) == diagnosis || steps_left(diagnosis.after(event)) < steps_left(
            diagnosis,
        ),
        steps_left(diagnosis) == 0 <==> diagnosis.phase == DiagnosisPhase::Finished,
        diagnosis.phase == DiagnosisPhase::Finished ==> diagnosis.pending() is Finish,
{
}

} // verus!
