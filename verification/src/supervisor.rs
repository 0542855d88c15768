//! Starting, stopping and asking after the engine.
//!
//! The supervisor keeps no record of whether the engine runs. The engine
//! can be started or ended by means that the supervisor never sees, so the
//! truth is asked anew each time, through a health probe. What the
//! supervisor does keep is where it runs: the platform, the user's account,
//! the inherited search path, and the one configuration of the port.

use vstd::prelude::*;
use vstd::string::StringExecFns;
use crate::command::{
    make_tool_env, plain_command, push_arg, tool_env, CommandLine, CommandLineView, Completion,
    CompletionView,
};
use crate::engine::{EngineCall, EngineCallView};
use crate::environment::{augmented_path, build_augmented_path};
use crate::errors::{
    indeterminate, make_indeterminate, make_subcommand_failed, subcommand_failed, verdict_view,
    SupervisorError, SupervisorErrorView,
};
use crate::health::{standard_timeouts, HealthProbe, HealthProbeView, ProbeTimeouts};
use crate::launch::{LaunchAction, LaunchActionView, LaunchChain, LaunchChainView};
use crate::models::{ModelListing, ModelListingView};
use crate::paths::{candidate_table, candidates_view, resolve_candidates, ExecutableCandidate};
use crate::platform::{HostProfile, HostProfileView, PlatformId};
use crate::port::{base_url, get_ollama_base_url, PortConfig, LOWEST_PORT, port_accepted_message, port_rejected_message};
use crate::words::texts;

verus! {

/// The command that ends the engine by the name of its image, by force.
pub open spec fn stop_command(platform: PlatformId, search_path: Seq<char>) -> CommandLineView {
    if platform == PlatformId::Windows {
        plain_command("taskkill"@, seq!["/F"@, "/IM"@, "ollama.exe"@], tool_env(search_path))
    } else {
        plain_command("pkill"@, seq!["-f"@, "ollama"@], tool_env(search_path))
    }
}

pub fn make_stop_command(platform: PlatformId, search_path: &str) -> (r: CommandLine)
    ensures
        r@ == stop_command(platform, search_path@),
{
    let mut args: Vec<String> = Vec::new();
    if platform == PlatformId::Windows {
        push_arg(&mut args, "/F");
        push_arg(&mut args, "/IM");
        push_arg(&mut args, "ollama.exe");
        assert(texts(args@) =~= seq!["/F"@, "/IM"@, "ollama.exe"@]);
        CommandLine {
            program: "taskkill".to_string(),
            args,
            env: make_tool_env(search_path),
            quiet: false,
            no_window: false,
        }
    } else {
        push_arg(&mut args, "-f");
        push_arg(&mut args, "ollama");
        assert(texts(args@) =~= seq!["-f"@, "ollama"@]);
        CommandLine {
            program: "pkill".to_string(),
            args,
            env: make_tool_env(search_path),
            quiet: false,
            no_window: false,
        }
    }
}

/// The exit code by which the stop command says that no process bore the
/// engine's name: 128 from `taskkill`, 1 from `pkill`.
pub open spec fn no_match_code(platform: PlatformId) -> i32 {
    if platform == PlatformId::Windows {
        128
    } else {
        1
    }
}

/// What the end of the stop command says. That there was no engine to stop
/// is a success: stopping what is stopped already does not fail.
pub open spec fn stop_verdict(platform: PlatformId, completion: CompletionView) -> Result<
    Seq<char>,
    SupervisorErrorView,
> {
    match completion {
        CompletionView::Finished(output) => if output.success {
            Ok("Ollama service stopped successfully"@)
        } else if output.code == Some(no_match_code(platform)) {
            Ok("Ollama service was not running"@)
        } else {
            Err(subcommand_failed("Failed to stop Ollama service: "@, output.stderr, ""@))
        },
        CompletionView::NotStarted(error) => Err(
            indeterminate("Failed to stop Ollama service: "@, error),
        ),
    }
}

/// Reads how the stop command ended.
pub fn read_stop(platform: PlatformId, completion: &Completion) -> (r: Result<String, SupervisorError>)
    ensures
        verdict_view(r) == stop_verdict(platform, completion@),
{
    match completion {
        Completion::Finished(output) => {
            let no_match: i32 = if platform == PlatformId::Windows {
                128
            } else {
                1
            };
            if output.success {
                Ok("Ollama service stopped successfully".to_string())
            } else if output.code == Some(no_match) {
                Ok("Ollama service was not running".to_string())
            } else {
                Err(
                    make_subcommand_failed(
                        "Failed to stop Ollama service: ",
                        output.stderr.as_str(),
                        "",
                    ),
                )
            }
        },
        Completion::NotStarted(error) => Err(
            make_indeterminate("Failed to stop Ollama service: ", error.as_str()),
        ),
    }
}

/// Stopping an engine that does not run succeeds, on every platform.
pub proof fn lemma_stop_is_idempotent(platform: PlatformId, stdout: Seq<char>, stderr: Seq<char>)
    ensures
        stop_verdict(
            platform,
            CompletionView::Finished(
                crate::command::CommandOutputView {
                    success: false,
                    code: Some(no_match_code(platform)),
                    stdout,
                    stderr,
                },
            ),
        ) is Ok,
{
}

/// What the end of a launch chain says to the user.
pub open spec fn start_verdict(action: LaunchActionView) -> Option<Result<Seq<char>, SupervisorErrorView>> {
    match action {
        LaunchActionView::Spawn(_) => None,
        LaunchActionView::Succeeded(attempt) => Some(
            Ok("Ollama service started successfully using: "@ + attempt.candidate),
        ),
        LaunchActionView::Failed(attempts) => Some(Err(SupervisorErrorView::LaunchFailed(attempts))),
    }
}

/// Reads the end of a launch chain; `None` while the chain still has a
/// command to spawn.
pub fn read_start(action: LaunchAction) -> (r: Option<Result<String, SupervisorError>>)
    ensures
        match r {
            Some(verdict) => start_verdict(action@) == Some(verdict_view(verdict)),
            None => start_verdict(action@) is None,
        },
{
    match action {
        LaunchAction::Spawn(_) => None,
        LaunchAction::Succeeded(attempt) => {
            let mut text = "Ollama service started successfully using: ".to_string();
            text.append(attempt.candidate.as_str());
            Some(Ok(text))
        },
        LaunchAction::Failed(error) => Some(Err(SupervisorError::LaunchFailed(error))),
    }
}

/// The supervisor of one engine.
pub struct ServiceSupervisor {
    platform: PlatformId,
    host: HostProfile,
    base_path: String,
    config: PortConfig,
}

pub struct ServiceSupervisorView {
    pub platform: PlatformId,
    pub host: HostProfileView,
    /// The search path that the supervisor's own process inherited.
    pub base_path: Seq<char>,
    pub port: u16,
}

impl ServiceSupervisorView {
    /// The search path that every command of the supervisor runs with.
    pub open spec fn search_path(self) -> Seq<char> {
        augmented_path(self.platform, self.base_path, self.host)
    }
}

impl View for ServiceSupervisor {
    type V = ServiceSupervisorView;

    closed spec fn view(&self) -> ServiceSupervisorView {
        ServiceSupervisorView {
            platform: self.platform,
            host: self.host@,
            base_path: self.base_path@,
            port: self.config@,
        }
    }
}

impl ServiceSupervisor {
    pub fn new(platform: PlatformId, host: HostProfile, base_path: String, config: PortConfig) -> (r:
        ServiceSupervisor)
        ensures
            r@ == (ServiceSupervisorView {
                platform,
                host: host@,
                base_path: base_path@,
                port: config@,
            }),
    {
        ServiceSupervisor { platform, host, base_path, config }
    }

    pub fn platform(&self) -> (r: PlatformId)
        ensures
            r == self@.platform,
    {
        self.platform
    }

    /// The port as it is configured now.
    pub fn port(&self) -> (r: u16)
        ensures
            r == self@.port,
    {
        self.config.port()
    }

    /// The configuration of the port, for the components that are handed
    /// it.
    pub fn port_config(&self) -> (r: PortConfig)
        ensures
            r@ == self@.port,
    {
        self.config
    }

    /// Sets the port; see `PortConfig::set_port`. Nothing else changes.
    pub fn set_port(&mut self, port: u16) -> (r: Result<String, String>)
        ensures
            port >= LOWEST_PORT ==> r is Ok && r->Ok_0@ == port_accepted_message(port),
            port >= LOWEST_PORT ==> final(self)@ == (ServiceSupervisorView { port, ..old(self)@ }),
            port < LOWEST_PORT ==> r is Err && r->Err_0@ == port_rejected_message(),
            port < LOWEST_PORT ==> final(self)@ == old(self)@,
    {
        self.config.set_port(port)
    }

    /// The base URL of the engine's HTTP interface, for the port as it is
    /// configured now.
    pub fn base_url(&self) -> (r: String)
        ensures
            r@ == base_url(self@.port),
    {
        get_ollama_base_url(&self.config)
    }

    /// The candidates for the engine's executable.
    pub fn candidates(&self) -> (r: Vec<ExecutableCandidate>)
        ensures
            candidates_view(r@) == candidate_table(self@.platform, self@.host),
    {
        resolve_candidates(self.platform, &self.host)
    }

    /// The search path that every command of the supervisor runs with.
    pub fn search_path(&self) -> (r: String)
        ensures
            r@ == self@.search_path(),
    {
        build_augmented_path(self.platform, self.base_path.as_str(), &self.host)
    }

    /// Begins to start the engine: the chain of attempts over the
    /// supervisor's candidates, with the augmented search path and the
    /// port as configured now. `exists` says for each candidate whether
    /// its path is on disk. The chain ends when the engine is spawned; it
    /// does not wait for the engine to serve.
    pub fn start(&self, exists: Vec<bool>) -> (r: LaunchChain)
        ensures
            r.inv(),
            r@ == LaunchChainView::initial(
                self@.platform,
                candidate_table(self@.platform, self@.host),
                exists@,
                self@.search_path(),
                self@.port,
            ),
    {
        LaunchChain::new(
            self.platform,
            self.candidates(),
            exists,
            self.search_path(),
            self.config.port(),
        )
    }

    /// The command that stops the engine.
    pub fn stop(&self) -> (r: CommandLine)
        ensures
            r@ == stop_command(self@.platform, self@.search_path()),
    {
        make_stop_command(self.platform, self.search_path().as_str())
    }

    /// Begins to ask whether the engine serves: a probe of the port as
    /// configured now.
    pub fn status(&self) -> (r: HealthProbe)
        ensures
            r@ == HealthProbeView::initial(
                self@.platform,
                self@.port,
                self@.search_path(),
                standard_timeouts(),
            ),
    {
        HealthProbe::new(
            self.platform,
            &self.config,
            self.search_path().as_str(),
            ProbeTimeouts::standard(),
        )
    }

    /// Begins a call of the engine's subcommand `args`.
    pub fn call(&self, args: Vec<String>, exists: Vec<bool>) -> (r: EngineCall)
        ensures
            r@ == EngineCallView::initial(
                candidate_table(self@.platform, self@.host),
                exists@,
                texts(args@),
                self@.search_path(),
                self@.port,
            ),
    {
        EngineCall::new(self.candidates(), exists, args, self.search_path(), self.config.port())
    }

    /// Begins to list the engine's models.
    pub fn list(&self, exists: Vec<bool>) -> (r: ModelListing)
        ensures
            r@ == (ModelListingView {
                platform: self@.platform,
                search_path: self@.search_path(),
                port: self@.port,
                call: EngineCallView::initial(
                    candidate_table(self@.platform, self@.host),
                    exists@,
                    seq!["list"@],
                    self@.search_path(),
                    self@.port,
                ),
                api: None,
            }),
    {
        ModelListing::new(
            self.platform,
            self.candidates(),
            exists,
            self.search_path().as_str(),
            &self.config,
        )
    }
}

} // verus!
