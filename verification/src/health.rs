//! Whether the engine is serving.
//!
//! The question is put to three tiers in turn. A connection to the engine's
//! port settles it at once. Failing that, the engine's HTTP interface is
//! asked; an answer that looks like the engine's settles it too. Failing
//! both, the system's table of processes is searched for the engine: a match
//! there says that the engine exists, not that it accepts connections, and
//! the report says so. Nothing is remembered between two probes, since the
//! engine can be started or stopped by anyone at any time.
//!
//! The probe dials and runs nothing itself: it names what to do next
//! (`pending`) and is told the result (`record`).

use vstd::prelude::*;

use crate::command::{
    make_tool_env, plain_command, push_arg, tool_env, CommandLine, CommandLineView, Completion,
    CompletionView,
};
use crate::decimal::decimal;
use crate::errors::append_number;
use crate::json::{json_object_text, parses_as_json_object};
use crate::platform::PlatformId;
use crate::port::{api_url, get_ollama_api_url, get_socket_address, socket_address, PortConfig};
use crate::text::{chars_of, contains, contains_in};
use crate::words::texts;

verus! {

/// The answer of a probe.
#[derive(Clone, Copy, PartialEq, Eq, Debug, Structural)]
pub enum HealthStatus {
    /// A tier found the engine.
    Running,
    /// Every tier looked and none found it.
    Stopped,
    /// No tier found the engine, and the last resort, the table of
    /// processes, could not be read. To be taken as "not running", without
    /// certainty.
    Indeterminate,
}

/// One tier of the probe.
#[derive(Clone, Copy, PartialEq, Eq, Debug, Structural)]
pub enum ProbeTier {
    Socket,
    Http,
    ProcessTable,
}

/// What one tier found.
#[derive(Clone, Copy, PartialEq, Eq, Debug, Structural)]
pub enum TierOutcome {
    /// The engine is there.
    Positive,
    /// The tier looked and did not find the engine.
    Negative,
    /// The tier's means of looking could not be used.
    Unavailable,
}

/// What the system said where a tier's means of looking could not be used.
#[derive(Debug)]
pub struct TierMessage {
    pub tier: ProbeTier,
    /// The system's message, unchanged.
    pub text: String,
}

pub struct TierMessageView {
    pub tier: ProbeTier,
    pub text: Seq<char>,
}

impl View for TierMessage {
    type V = TierMessageView;

    open spec fn view(&self) -> TierMessageView {
        TierMessageView { tier: self.tier, text: self.text@ }
    }
}

pub open spec fn messages_view(v: Seq<TierMessage>) -> Seq<TierMessageView> {
    Seq::new(v.len(), |i: int| v[i]@)
}

/// A copy of the messages.
pub fn copy_messages(messages: &Vec<TierMessage>) -> (r: Vec<TierMessage>)
    ensures
        messages_view(r@) == messages_view(messages@),
{
    let mut r: Vec<TierMessage> = Vec::new();
    let mut i: usize = 0;
    while i < messages.len()
        invariant
            i <= messages.len(),
            messages_view(r@) == messages_view(messages@).take(i as int),
        decreases messages.len() - i,
    {
        let ghost so_far = messages_view(r@);
        let message = TierMessage { tier: messages[i].tier, text: messages[i].text.clone() };
        let ghost view = message@;
        r.push(message);
        assert(messages_view(r@) =~= so_far.push(view));
        assert(so_far.push(view) =~= messages_view(messages@).take(i + 1));
        i += 1;
    }
    assert(messages_view(messages@).take(messages.len() as int) == messages_view(messages@));
    r
}

/// The answer of a probe, with the tier that gave it.
#[derive(Debug)]
pub struct HealthReport {
    pub status: HealthStatus,
    /// The tier that found the engine, where one did.
    pub confirmed_by: Option<ProbeTier>,
    /// Whether the engine was found over the network (by the first or the
    /// second tier). A match in the table of processes alone leaves this
    /// `false`.
    pub verified_by_network: bool,
    /// What the system said of each tier whose means of looking could not
    /// be used, in the order of the tiers. Where the status is
    /// `Indeterminate`, the last message is that of the table of
    /// processes.
    pub messages: Vec<TierMessage>,
}

pub struct HealthReportView {
    pub status: HealthStatus,
    pub confirmed_by: Option<ProbeTier>,
    pub verified_by_network: bool,
    pub messages: Seq<TierMessageView>,
}

impl View for HealthReport {
    type V = HealthReportView;

    open spec fn view(&self) -> HealthReportView {
        HealthReportView {
            status: self.status,
            confirmed_by: self.confirmed_by,
            verified_by_network: self.verified_by_network,
            messages: messages_view(self.messages@),
        }
    }
}

impl HealthReportView {
    /// Whether the report confirms that the engine serves: it was found,
    /// and found over the network. A match in the table of processes alone
    /// confirms nothing.
    pub open spec fn confirms(self) -> bool {
        self.status == HealthStatus::Running && self.verified_by_network
    }
}

impl HealthReport {
    /// Whether the report confirms that the engine serves.
    pub fn confirms_serving(&self) -> (r: bool)
        ensures
            r == self@.confirms(),
    {
        self.status == HealthStatus::Running && self.verified_by_network
    }
}

/// The time that the tiers of a probe are given.
#[derive(Clone, Copy, Debug)]
pub struct ProbeTimeouts {
    /// For the connection to the port, in milliseconds.
    pub connect_ms: u32,
    /// For the connection of the HTTP request, in seconds.
    pub http_connect_s: u32,
    /// For the whole HTTP request, in seconds.
    pub http_total_s: u32,
}

/// One second for the connection to the port, two for the connection of the
/// HTTP request and three for the whole of it.
pub open spec fn standard_timeouts() -> ProbeTimeouts {
    ProbeTimeouts { connect_ms: 1000, http_connect_s: 2, http_total_s: 3 }
}

impl ProbeTimeouts {
    /// The standard timeouts.
    pub fn standard() -> (r: ProbeTimeouts)
        ensures
            r == standard_timeouts(),
    {
        ProbeTimeouts { connect_ms: 1000, http_connect_s: 2, http_total_s: 3 }
    }
}

/// The tier that is asked after `asked` tiers have answered.
pub open spec fn tier_at(asked: int) -> ProbeTier {
    if asked == 0 {
        ProbeTier::Socket
    } else if asked == 1 {
        ProbeTier::Http
    } else {
        ProbeTier::ProcessTable
    }
}

/// What the answers of the tiers asked so far amount to; `None` while a
/// further tier has to be asked. A positive answer ends the probe with
/// `Running`. After three answers without one, the probe ends with
/// `Indeterminate` where the table of processes could not be read, else with
/// `Stopped`. The report hands on every message that the system gave.
pub open spec fn assess(outcomes: Seq<TierOutcome>, messages: Seq<TierMessageView>) -> Option<
    HealthReportView,
> {
    if outcomes.len() > 0 && outcomes.last() == TierOutcome::Positive {
        Some(
            HealthReportView {
                status: HealthStatus::Running,
                confirmed_by: Some(tier_at(outcomes.len() - 1)),
                verified_by_network: outcomes.len() <= 2,
                messages,
            },
        )
    } else if outcomes.len() >= 3 {
        Some(
            HealthReportView {
                status: if outcomes[2] == TierOutcome::Unavailable {
                    HealthStatus::Indeterminate
                } else {
                    HealthStatus::Stopped
                },
                confirmed_by: None,
                verified_by_network: false,
                messages,
            },
        )
    } else {
        None
    }
}

/// The system's message, where a command could not be started.
pub open spec fn system_message(completion: CompletionView) -> Option<Seq<char>> {
    match completion {
        CompletionView::Finished(_) => None,
        CompletionView::NotStarted(error) => Some(error),
    }
}

/// What the first tier found.
pub open spec fn socket_outcome(connected: bool) -> TierOutcome {
    if connected {
        TierOutcome::Positive
    } else {
        TierOutcome::Negative
    }
}

/// Whether the body of an HTTP answer looks like the engine's: it parses as
/// a JSON object, or mentions `models`.
pub open spec fn body_confirms(body: Seq<char>) -> bool {
    json_object_text(body) || contains(body, "models"@)
}

/// What the second tier found.
pub open spec fn http_outcome(completion: CompletionView) -> TierOutcome {
    match completion {
        CompletionView::Finished(output) => if output.success && body_confirms(output.stdout) {
            TierOutcome::Positive
        } else {
            TierOutcome::Negative
        },
        CompletionView::NotStarted(_) => TierOutcome::Unavailable,
    }
}

/// What the third tier found. On Windows the list of tasks names the
/// engine's image where it runs; elsewhere the search for the process
/// succeeds where it runs.
pub open spec fn process_outcome(platform: PlatformId, completion: CompletionView) -> TierOutcome {
    match completion {
        CompletionView::Finished(output) => {
            let found = if platform == PlatformId::Windows {
                contains(output.stdout, "ollama.exe"@)
            } else {
                output.success
            };
            if found {
                TierOutcome::Positive
            } else {
                TierOutcome::Negative
            }
        },
        CompletionView::NotStarted(_) => TierOutcome::Unavailable,
    }
}

/// Whether the body of an HTTP answer looks like the engine's.
pub fn body_confirms_engine(body: &str) -> (r: bool)
    ensures
        r == body_confirms(body@),
{
    parses_as_json_object(body) || contains_in(
        chars_of(body).as_slice(),
        chars_of("models").as_slice(),
    )
}

/// What the second tier found.
pub fn judge_http(completion: &Completion) -> (r: TierOutcome)
    ensures
        r == http_outcome(completion@),
{
    match completion {
        Completion::Finished(output) => {
            if output.success && body_confirms_engine(output.stdout.as_str()) {
                TierOutcome::Positive
            } else {
                TierOutcome::Negative
            }
        },
        Completion::NotStarted(_) => TierOutcome::Unavailable,
    }
}

/// What the third tier found.
pub fn judge_process_table(platform: PlatformId, completion: &Completion) -> (r: TierOutcome)
    ensures
        r == process_outcome(platform, completion@),
{
    match completion {
        Completion::Finished(output) => {
            let found = if platform == PlatformId::Windows {
                contains_in(
                    chars_of(output.stdout.as_str()).as_slice(),
                    chars_of("ollama.exe").as_slice(),
                )
            } else {
                output.success
            };
            if found {
                TierOutcome::Positive
            } else {
                TierOutcome::Negative
            }
        },
        Completion::NotStarted(_) => TierOutcome::Unavailable,
    }
}

/// The command of the second tier: an HTTP request for the engine's list of
/// models, silent and bounded in time.
pub open spec fn http_command(search_path: Seq<char>, port: u16, timeouts: ProbeTimeouts) -> CommandLineView {
    plain_command(
        "curl"@,
        seq![
            "-s"@,
            "--connect-timeout"@,
            decimal(timeouts.http_connect_s as nat),
            "--max-time"@,
            decimal(timeouts.http_total_s as nat),
            api_url(port, "tags"@),
        ],
        tool_env(search_path),
    )
}

/// The command of the third tier.
pub open spec fn process_table_command(platform: PlatformId, search_path: Seq<char>) -> CommandLineView {
    if platform == PlatformId::Windows {
        plain_command("tasklist"@, seq!["/FI"@, "IMAGENAME eq ollama.exe"@], tool_env(search_path))
    } else {
        plain_command("pgrep"@, seq!["-f"@, "ollama"@], tool_env(search_path))
    }
}

pub fn make_http_command(search_path: &str, config: &PortConfig, timeouts: ProbeTimeouts) -> (r:
    CommandLine)
    ensures
        r@ == http_command(search_path@, config@, timeouts),
{
    let mut connect = String::new();
    append_number(&mut connect, timeouts.http_connect_s as u64);
    let mut total = String::new();
    append_number(&mut total, timeouts.http_total_s as u64);
    let mut args: Vec<String> = Vec::new();
    push_arg(&mut args, "-s");
    push_arg(&mut args, "--connect-timeout");
    push_arg(&mut args, connect.as_str());
    push_arg(&mut args, "--max-time");
    push_arg(&mut args, total.as_str());
    push_arg(&mut args, get_ollama_api_url(config, "tags").as_str());
    assert(texts(args@) =~= http_command(search_path@, config@, timeouts).args);
    CommandLine {
        program: "curl".to_string(),
        args,
        env: make_tool_env(search_path),
        quiet: false,
        no_window: false,
    }
}

pub fn make_process_table_command(platform: PlatformId, search_path: &str) -> (r: CommandLine)
    ensures
        r@ == process_table_command(platform, search_path@),
{
    let mut args: Vec<String> = Vec::new();
    if platform == PlatformId::Windows {
        push_arg(&mut args, "/FI");
        push_arg(&mut args, "IMAGENAME eq ollama.exe");
        assert(texts(args@) =~= seq!["/FI"@, "IMAGENAME eq ollama.exe"@]);
        CommandLine {
            program: "tasklist".to_string(),
            args,
            env: make_tool_env(search_path),
            quiet: false,
            no_window: false,
        }
    } else {
        push_arg(&mut args, "-f");
        push_arg(&mut args, "ollama");
        assert(texts(args@) =~= seq!["-f"@, "ollama"@]);
        CommandLine {
            program: "pgrep".to_string(),
            args,
            env: make_tool_env(search_path),
            quiet: false,
            no_window: false,
        }
    }
}

/// What the caller of a probe is to do next.
pub enum ProbeStep {
    /// Try to connect to this socket address within so many milliseconds,
    /// and report whether the connection came about.
    Connect { address: String, timeout_ms: u32 },
    /// Run this command to its end and report how it ended.
    Run(CommandLine),
    /// The probe has ended.
    Report(HealthReport),
}

pub enum ProbeStepView {
    Connect { address: Seq<char>, timeout_ms: u32 },
    Run(CommandLineView),
    Report(HealthReportView),
}

impl View for ProbeStep {
    type V = ProbeStepView;

    open spec fn view(&self) -> ProbeStepView {
        match self {
            ProbeStep::Connect { address, timeout_ms } => ProbeStepView::Connect {
                address: address@,
                timeout_ms: *timeout_ms,
            },
            ProbeStep::Run(command) => ProbeStepView::Run(command@),
            ProbeStep::Report(report) => ProbeStepView::Report(report@),
        }
    }
}

/// What the caller reports to a probe.
pub enum ProbeEvent {
    /// Whether the connection came about.
    Connected(bool),
    /// How the command ended.
    Completed(Completion),
}

pub enum ProbeEventView {
    Connected(bool),
    Completed(CompletionView),
}

impl View for ProbeEvent {
    type V = ProbeEventView;

    open spec fn view(&self) -> ProbeEventView {
        match self {
            ProbeEvent::Connected(connected) => ProbeEventView::Connected(*connected),
            ProbeEvent::Completed(completion) => ProbeEventView::Completed(completion@),
        }
    }
}

/// The state of a probe.
pub struct HealthProbeView {
    pub platform: PlatformId,
    pub port: u16,
    pub search_path: Seq<char>,
    pub timeouts: ProbeTimeouts,
    /// What the tiers asked so far have found, in their order.
    pub outcomes: Seq<TierOutcome>,
    /// What the system said of the tiers that could not be asked.
    pub messages: Seq<TierMessageView>,
}

impl HealthProbeView {
    /// The probe before any tier was asked.
    pub open spec fn initial(
        platform: PlatformId,
        port: u16,
        search_path: Seq<char>,
        timeouts: ProbeTimeouts,
    ) -> HealthProbeView {
        HealthProbeView {
            platform,
            port,
            search_path,
            timeouts,
            outcomes: Seq::empty(),
            messages: Seq::empty(),
        }
    }

    /// What the caller is to do next.
    pub open spec fn pending(self) -> ProbeStepView {
        match assess(self.outcomes, self.messages) {
            Some(report) => ProbeStepView::Report(report),
            None => if self.outcomes.len() == 0 {
                ProbeStepView::Connect {
                    address: socket_address(self.port),
                    timeout_ms: self.timeouts.connect_ms,
                }
            } else if self.outcomes.len() == 1 {
                ProbeStepView::Run(http_command(self.search_path, self.port, self.timeouts))
            } else {
                ProbeStepView::Run(process_table_command(self.platform, self.search_path))
            },
        }
    }

    /// What the pending tier makes of the caller's report; `None` where the
    /// probe has ended or the report is not of the kind that the tier
    /// waits for.
    pub open spec fn judged(self, event: ProbeEventView) -> Option<TierOutcome> {
        if assess(self.outcomes, self.messages) is Some {
            None
        } else {
            match event {
                ProbeEventView::Connected(connected) => if self.outcomes.len() == 0 {
                    Some(socket_outcome(connected))
                } else {
                    None
                },
                ProbeEventView::Completed(completion) => if self.outcomes.len() == 1 {
                    Some(http_outcome(completion))
                } else if self.outcomes.len() == 2 {
                    Some(process_outcome(self.platform, completion))
                } else {
                    None
                },
            }
        }
    }

    /// The system's message that comes with the caller's report, where the
    /// pending tier could not be asked.
    pub open spec fn noted(self, event: ProbeEventView) -> Option<TierMessageView> {
        match event {
            ProbeEventView::Connected(_) => None,
            ProbeEventView::Completed(completion) => match system_message(completion) {
                Some(text) => Some(
                    TierMessageView { tier: tier_at(self.outcomes.len() as int), text },
                ),
                None => None,
            },
        }
    }

    /// The probe after the caller's report: what the pending tier found is
    /// added, and with it the system's message where the tier could not be
    /// asked. A report that the pending tier does not wait for changes
    /// nothing.
    pub open spec fn after(self, event: ProbeEventView) -> HealthProbeView {
        match self.judged(event) {
            Some(outcome) => HealthProbeView {
                outcomes: self.outcomes.push(outcome),
                messages: match self.noted(event) {
                    Some(message) => self.messages.push(message),
                    None => self.messages,
                },
                ..self
            },
            None => self,
        }
    }
}

/// A probe of the engine's health.
pub struct HealthProbe {
    platform: PlatformId,
    config: PortConfig,
    search_path: String,
    timeouts: ProbeTimeouts,
    outcomes: Vec<TierOutcome>,
    messages: Vec<TierMessage>,
}

impl View for HealthProbe {
    type V = HealthProbeView;

    closed spec fn view(&self) -> HealthProbeView {
        HealthProbeView {
            platform: self.platform,
            port: self.config@,
            search_path: self.search_path@,
            timeouts: self.timeouts,
            outcomes: self.outcomes@,
            messages: messages_view(self.messages@),
        }
    }
}

/// The report that the outcomes so far amount to, with the messages that the
/// system gave.
pub fn assess_outcomes(outcomes: &Vec<TierOutcome>, messages: &Vec<TierMessage>) -> (r: Option<
    HealthReport,
>)
    ensures
        match r {
            Some(report) => assess(outcomes@, messages_view(messages@)) == Some(report@),
            None => assess(outcomes@, messages_view(messages@)) is None,
        },
{
    let n = outcomes.len();
    if n > 0 && outcomes[n - 1] == TierOutcome::Positive {
        let tier = if n == 1 {
            ProbeTier::Socket
        } else if n == 2 {
            ProbeTier::Http
        } else {
            ProbeTier::ProcessTable
        };
        Some(
            HealthReport {
                status: HealthStatus::Running,
                confirmed_by: Some(tier),
                verified_by_network: n <= 2,
                messages: copy_messages(messages),
            },
        )
    } else if n >= 3 {
        let status = if outcomes[2] == TierOutcome::Unavailable {
            HealthStatus::Indeterminate
        } else {
            HealthStatus::Stopped
        };
        Some(
            HealthReport {
                status,
                confirmed_by: None,
                verified_by_network: false,
                messages: copy_messages(messages),
            },
        )
    } else {
        None
    }
}

fn is_assessed(outcomes: &Vec<TierOutcome>) -> (r: bool)
    ensures
        forall|messages: Seq<TierMessageView>| r == (#[trigger] assess(outcomes@, messages) is Some),
{
    let n = outcomes.len();
    (n > 0 && outcomes[n - 1] == TierOutcome::Positive) || n >= 3
}

impl HealthProbe {
    /// A probe of the port that `config` holds at this moment.
    pub fn new(platform: PlatformId, config: &PortConfig, search_path: &str, timeouts: ProbeTimeouts) -> (r:
        HealthProbe)
        ensures
            r@ == HealthProbeView::initial(platform, config@, search_path@, timeouts),
    {
        let probe = HealthProbe {
            platform,
            config: *config,
            search_path: search_path.to_string(),
            timeouts,
            outcomes: Vec::new(),
            messages: Vec::new(),
        };
        assert(probe@.messages =~= Seq::empty());
        probe
    }

    /// What the caller is to do next: ask a tier, or take the report.
    pub fn pending(&self) -> (r: ProbeStep)
        ensures
            r@ == self@.pending(),
    {
        match assess_outcomes(&self.outcomes, &self.messages) {
            Some(report) => ProbeStep::Report(report),
            None => {
                if self.outcomes.len() == 0 {
                    ProbeStep::Connect {
                        address: get_socket_address(&self.config),
                        timeout_ms: self.timeouts.connect_ms,
                    }
                } else if self.outcomes.len() == 1 {
                    ProbeStep::Run(
                        make_http_command(self.search_path.as_str(), &self.config, self.timeouts),
                    )
                } else {
                    ProbeStep::Run(
                        make_process_table_command(self.platform, self.search_path.as_str()),
                    )
                }
            },
        }
    }

    /// Keeps the system's message of a command that could not be started,
    /// for the tier that is pending.
    fn note(&mut self, completion: &Completion)
        requires
            old(self).outcomes.len() == 1 || old(self).outcomes.len() == 2,
        ensures
            final(self)@ == (HealthProbeView {
                messages: match old(self)@.noted(ProbeEventView::Completed(completion@)) {
                    Some(message) => old(self)@.messages.push(message),
                    None => old(self)@.messages,
                },
                ..old(self)@
            }),
    {
        match completion {
            Completion::Finished(_) => {},
            Completion::NotStarted(error) => {
                let tier = if self.outcomes.len() == 1 {
                    ProbeTier::Http
                } else {
                    ProbeTier::ProcessTable
                };
                let ghost before = messages_view(self.messages@);
                let message = TierMessage { tier, text: error.clone() };
                let ghost view = message@;
                self.messages.push(message);
                assert(messages_view(self.messages@) =~= before.push(view));
            },
        }
    }

    /// Takes the caller's report of what the pending tier found.
    pub fn record(&mut self, event: &ProbeEvent)
        ensures
            final(self)@ == old(self)@.after(event@),
    {
        if is_assessed(&self.outcomes) {
            return ;
        }
        match event {
            ProbeEvent::Connected(connected) => {
                if self.outcomes.len() == 0 {
                    if *connected {
                        self.outcomes.push(TierOutcome::Positive);
                    } else {
                        self.outcomes.push(TierOutcome::Negative);
                    }
                }
            },
            ProbeEvent::Completed(completion) => {
                if self.outcomes.len() == 1 {
                    let outcome = judge_http(completion);
                    self.note(completion);
                    self.outcomes.push(outcome);
                } else if self.outcomes.len() == 2 {
                    let outcome = judge_process_table(self.platform, completion);
                    self.note(completion);
                    self.outcomes.push(outcome);
                }
            },
        }
    }
}

/// A connection to the port ends the probe at once: the report is
/// `Running`, confirmed by the first tier over the network, and no other
/// tier is asked.
pub proof fn lemma_connection_settles(probe: HealthProbeView)
    requires
        probe.outcomes.len() == 0,
    ensures
        probe.after(ProbeEventView::Connected(true)).pending() == ProbeStepView::Report(
            HealthReportView {
                status: HealthStatus::Running,
                confirmed_by: Some(ProbeTier::Socket),
                verified_by_network: true,
                messages: probe.messages,
            },
        ),
{
}

/// Where the port refuses the connection and the HTTP request fails, a
/// match in the table of processes still gives `Running`, confirmed by the
/// third tier and not over the network: a report that does not confirm
/// that the engine serves.
pub proof fn lemma_process_table_is_last_resort(
    probe: HealthProbeView,
    http: CompletionView,
    table: CompletionView,
)
    requires
        probe.outcomes.len() == 0,
        match http {
            CompletionView::Finished(output) => !output.success,
            CompletionView::NotStarted(_) => true,
        },
        process_outcome(probe.platform, table) == TierOutcome::Positive,
    ensures
        probe.after(ProbeEventView::Connected(false)).after(ProbeEventView::Completed(http)).after(
            ProbeEventView::Completed(table),
        ).pending() is Report,
        probe.after(ProbeEventView::Connected(false)).after(ProbeEventView::Completed(http)).after(
            ProbeEventView::Completed(table),
        ).pending()->Report_0.status == HealthStatus::Running,
        probe.after(ProbeEventView::Connected(false)).after(ProbeEventView::Completed(http)).after(
            ProbeEventView::Completed(table),
        ).pending()->Report_0.confirmed_by == Some(ProbeTier::ProcessTable),
        !probe.after(ProbeEventView::Connected(false)).after(ProbeEventView::Completed(http)).after(
            ProbeEventView::Completed(table),
        ).pending()->Report_0.confirms(),
{
    let first = probe.after(ProbeEventView::Connected(false));
    assert(first.outcomes == seq![TierOutcome::Negative]);
    let second = first.after(ProbeEventView::Completed(http));
    assert(second.outcomes == seq![TierOutcome::Negative, http_outcome(http)]);
    let third = second.after(ProbeEventView::Completed(table));
    assert(third.outcomes == seq![TierOutcome::Negative, http_outcome(http), TierOutcome::Positive]);
}

/// Where no tier found the engine and the table of processes could not be
/// read, the probe ends as `Indeterminate`, and the last message of its
/// report is the system's own, word for word: two probes that fail with
/// different messages give different reports.
pub proof fn lemma_indeterminate_keeps_the_message(probe: HealthProbeView, error: Seq<char>)
    requires
        probe.outcomes.len() == 2,
        probe.outcomes[0] != TierOutcome::Positive,
        probe.outcomes[1] != TierOutcome::Positive,
    ensures
        probe.after(ProbeEventView::Completed(CompletionView::NotStarted(error))).pending()
            is Report,
        probe.after(
            ProbeEventView::Completed(CompletionView::NotStarted(error)),
        ).pending()->Report_0.status == HealthStatus::Indeterminate,
        probe.after(
            ProbeEventView::Completed(CompletionView::NotStarted(error)),
        ).pending()->Report_0.messages == probe.messages.push(
            TierMessageView { tier: ProbeTier::ProcessTable, text: error },
        ),
{
}

/// A probe asks at most three tiers: after three reports that were taken,
/// it has ended.
pub proof fn lemma_probe_ends(probe: HealthProbeView)
    ensures
        probe.outcomes.len() >= 3 ==> probe.pending() is Report,
        probe.pending() is Report ==> forall|event: ProbeEventView| probe.after(event) == probe,
{
}

} // verus!
