//! The engine's models: listing them, fetching one, removing one.
//!
//! Each operation is a call of one of the engine's subcommands, and what
//! the engine writes to its standard error is handed on word for word where
//! it reports failure. Listing has a second source: where the subcommand
//! fails on Windows, the engine's HTTP interface is asked through `curl`,
//! and its answer is scanned for names.

use vstd::prelude::*;
use vstd::string::StringExecFns;
use crate::command::{
    plain_command, push_arg, CommandLine, CommandLineView, Completion, CompletionView,
};
use crate::engine::{EngineCall, EngineCallView, EngineReply, EngineReplyView, EngineStep, EngineStepView};
use crate::errors::{
    make_not_installed, make_subcommand_failed, not_installed, subcommand_failed, verdict_view,
    SupervisorError, SupervisorErrorView,
};
use crate::health::{http_command, make_http_command, standard_timeouts, ProbeTimeouts};
use crate::inventory::{
    listed_models, listed_records, parse_model_list, parse_model_records, records_view,
    scan_model_records, scanned_models, scanned_records, ModelRecord, ModelRecordView,
};
use crate::paths::{candidates_view, ExecutableCandidate};
use crate::platform::{HostProfile, HostProfileView, PlatformId};
use crate::port::PortConfig;
use crate::text::{chars_of, string_of};
use crate::words::{texts, trim, trim_text};

verus! {

/// What a result that holds records says, over their views.
pub open spec fn listing_view(r: Result<Vec<ModelRecord>, SupervisorError>) -> Result<
    Seq<ModelRecordView>,
    SupervisorErrorView,
> {
    match r {
        Ok(records) => Ok(records_view(records@)),
        Err(error) => Err(error@),
    }
}

/// The arguments that ask the engine for its version.
pub fn version_args() -> (r: Vec<String>)
    ensures
        texts(r@) == seq!["--version"@],
{
    let mut args: Vec<String> = Vec::new();
    push_arg(&mut args, "--version");
    assert(texts(args@) =~= seq!["--version"@]);
    args
}

/// The arguments that ask the engine for its models.
pub fn list_args() -> (r: Vec<String>)
    ensures
        texts(r@) == seq!["list"@],
{
    let mut args: Vec<String> = Vec::new();
    push_arg(&mut args, "list");
    assert(texts(args@) =~= seq!["list"@]);
    args
}

/// The arguments that make the engine fetch the model `name`.
pub fn pull_args(name: &str) -> (r: Vec<String>)
    ensures
        texts(r@) == seq!["pull"@, name@],
{
    let mut args: Vec<String> = Vec::new();
    push_arg(&mut args, "pull");
    push_arg(&mut args, name);
    assert(texts(args@) =~= seq!["pull"@, name@]);
    args
}

/// The arguments that make the engine remove the model `name`.
pub fn remove_args(name: &str) -> (r: Vec<String>)
    ensures
        texts(r@) == seq!["rm"@, name@],
{
    let mut args: Vec<String> = Vec::new();
    push_arg(&mut args, "rm");
    push_arg(&mut args, name);
    assert(texts(args@) =~= seq!["rm"@, name@]);
    args
}

/// What the engine's answer to `--version` says: the version it printed,
/// without the white space around it, and the path where the engine was
/// found if it was not found through the search path. A failure is told
/// with the engine's or the system's own words.
pub open spec fn version_verdict(reply: EngineReplyView) -> Result<Seq<char>, SupervisorErrorView> {
    match reply {
        EngineReplyView::Ran { candidate, absolute, output } => if output.success {
            if absolute {
                Ok(trim(output.stdout) + " (found at "@ + candidate + ")"@)
            } else {
                Ok(trim(output.stdout))
            }
        } else {
            Err(subcommand_failed("Ollama command failed: "@, output.stderr, ""@))
        },
        EngineReplyView::NotInstalled(detail) => Err(
            not_installed("Ollama not found or not accessible: "@, detail, ""@),
        ),
    }
}

/// Reads the engine's answer to `--version`.
pub fn read_version(reply: &EngineReply) -> (r: Result<String, SupervisorError>)
    ensures
        verdict_view(r) == version_verdict(reply@),
{
    match reply {
        EngineReply::Ran { candidate, absolute, output } => {
            if output.success {
                let mut text = string_of(trim_text(chars_of(output.stdout.as_str()).as_slice()).as_slice());
                if *absolute {
                    text.append(" (found at ");
                    text.append(candidate.as_str());
                    text.append(")");
                }
                Ok(text)
            } else {
                Err(make_subcommand_failed("Ollama command failed: ", output.stderr.as_str(), ""))
            }
        },
        EngineReply::NotInstalled(detail) => Err(
            make_not_installed("Ollama not found or not accessible: ", detail.as_str(), ""),
        ),
    }
}

/// What stands before the engine's words where an operation on the model
/// `name` failed: what was being done, the model, and, where the engine
/// was found by an installation path, that path.
pub open spec fn model_failure_opening(
    doing: Seq<char>,
    name: Seq<char>,
    candidate: Seq<char>,
    absolute: bool,
) -> Seq<char> {
    if absolute {
        doing + name + "' using "@ + candidate + ": "@
    } else {
        doing + name + "': "@
    }
}

fn make_model_failure_opening(doing: &str, name: &str, candidate: &str, absolute: bool) -> (r: String)
    ensures
        r@ == model_failure_opening(doing@, name@, candidate@, absolute),
{
    let mut opening = doing.to_string();
    opening.append(name);
    if absolute {
        opening.append("' using ");
        opening.append(candidate);
        opening.append(": ");
    } else {
        opening.append("': ");
    }
    opening
}

/// What the engine's answer to `pull` says. A failure names the model and
/// holds the engine's own words.
pub open spec fn pull_verdict(name: Seq<char>, reply: EngineReplyView) -> Result<
    Seq<char>,
    SupervisorErrorView,
> {
    match reply {
        EngineReplyView::Ran { candidate, absolute, output } => if output.success {
            if absolute {
                Ok(
                    "Model '"@ + name + "' downloaded successfully using "@ + candidate
                        + ". Output: "@ + trim(output.stdout),
                )
            } else {
                Ok("Model '"@ + name + "' downloaded successfully. Output: "@ + trim(output.stdout))
            }
        } else {
            Err(
                subcommand_failed(
                    model_failure_opening("Failed to download model '"@, name, candidate, absolute),
                    output.stderr,
                    ""@,
                ),
            )
        },
        EngineReplyView::NotInstalled(detail) => Err(
            not_installed(
                "Failed to run ollama pull: "@,
                detail,
                ". Make sure Ollama is installed and accessible."@,
            ),
        ),
    }
}

/// Reads the engine's answer to `pull` for the model `name`.
pub fn read_pull(name: &str, reply: &EngineReply) -> (r: Result<String, SupervisorError>)
    ensures
        verdict_view(r) == pull_verdict(name@, reply@),
{
    match reply {
        EngineReply::Ran { candidate, absolute, output } => {
            if output.success {
                let mut text = "Model '".to_string();
                text.append(name);
                if *absolute {
                    text.append("' downloaded successfully using ");
                    text.append(candidate.as_str());
                    text.append(". Output: ");
                } else {
                    text.append("' downloaded successfully. Output: ");
                }
                let printed = string_of(trim_text(chars_of(output.stdout.as_str()).as_slice()).as_slice());
                text.append(printed.as_str());
                Ok(text)
            } else {
                let opening = make_model_failure_opening(
                    "Failed to download model '",
                    name,
                    candidate.as_str(),
                    *absolute,
                );
                Err(make_subcommand_failed(opening.as_str(), output.stderr.as_str(), ""))
            }
        },
        EngineReply::NotInstalled(detail) => Err(
            make_not_installed(
                "Failed to run ollama pull: ",
                detail.as_str(),
                ". Make sure Ollama is installed and accessible.",
            ),
        ),
    }
}

/// What the engine's answer to `rm` says. A failure names the model and
/// holds the engine's own words.
pub open spec fn remove_verdict(name: Seq<char>, reply: EngineReplyView) -> Result<
    Seq<char>,
    SupervisorErrorView,
> {
    match reply {
        EngineReplyView::Ran { candidate, absolute, output } => if output.success {
            Ok("Model '"@ + name + "' uninstalled successfully"@)
        } else {
            Err(
                subcommand_failed(
                    model_failure_opening("Failed to uninstall model '"@, name, candidate, absolute),
                    output.stderr,
                    ""@,
                ),
            )
        },
        EngineReplyView::NotInstalled(detail) => Err(
            not_installed("Failed to run ollama rm: "@, detail, ""@),
        ),
    }
}

/// Reads the engine's answer to `rm` for the model `name`.
pub fn read_remove(name: &str, reply: &EngineReply) -> (r: Result<String, SupervisorError>)
    ensures
        verdict_view(r) == remove_verdict(name@, reply@),
{
    match reply {
        EngineReply::Ran { candidate, absolute, output } => {
            if output.success {
                let mut text = "Model '".to_string();
                text.append(name);
                text.append("' uninstalled successfully");
                Ok(text)
            } else {
                let opening = make_model_failure_opening(
                    "Failed to uninstall model '",
                    name,
                    candidate.as_str(),
                    *absolute,
                );
                Err(make_subcommand_failed(opening.as_str(), output.stderr.as_str(), ""))
            }
        },
        EngineReply::NotInstalled(detail) => Err(
            make_not_installed("Failed to run ollama rm: ", detail.as_str(), ""),
        ),
    }
}

/// The failure of the engine's `list`, with the engine's own words.
pub open spec fn list_failed(stderr: Seq<char>) -> SupervisorErrorView {
    subcommand_failed(
        "Failed to list models using 'ollama list': "@,
        stderr,
        ". Make sure Ollama is installed and running."@,
    )
}

/// The failure to start the engine for `list`, with the system's own
/// words.
pub open spec fn list_not_started(detail: Seq<char>) -> SupervisorErrorView {
    not_installed(
        "Failed to run 'ollama list': "@,
        detail,
        ". Make sure Ollama is installed and accessible."@,
    )
}

fn make_list_failed(stderr: &str) -> (r: SupervisorError)
    ensures
        r@ == list_failed(stderr@),
{
    make_subcommand_failed(
        "Failed to list models using 'ollama list': ",
        stderr,
        ". Make sure Ollama is installed and running.",
    )
}

fn make_list_not_started(detail: &str) -> (r: SupervisorError)
    ensures
        r@ == list_not_started(detail@),
{
    make_not_installed(
        "Failed to run 'ollama list': ",
        detail,
        ". Make sure Ollama is installed and accessible.",
    )
}

/// The command that asks the engine's HTTP interface for its models. It is
/// the request of the health probe, bounded in time like it.
pub open spec fn tags_command(search_path: Seq<char>, port: u16) -> CommandLineView {
    http_command(search_path, port, standard_timeouts())
}

pub fn make_tags_command(search_path: &str, config: &PortConfig) -> (r: CommandLine)
    ensures
        r@ == tags_command(search_path@, config@),
{
    make_http_command(search_path, config, ProbeTimeouts::standard())
}

/// What the caller of a listing is to do next.
pub enum ListingStep {
    /// Run this command to its end and report how it ended.
    Run(CommandLine),
    /// The listing has ended, with the models or with the reason why there
    /// are none.
    Done(Result<Vec<ModelRecord>, SupervisorError>),
}

pub enum ListingStepView {
    Run(CommandLineView),
    Done(Result<Seq<ModelRecordView>, SupervisorErrorView>),
}

impl View for ListingStep {
    type V = ListingStepView;

    open spec fn view(&self) -> ListingStepView {
        match self {
            ListingStep::Run(command) => ListingStepView::Run(command@),
            ListingStep::Done(result) => ListingStepView::Done(listing_view(*result)),
        }
    }
}

/// The state of a listing.
pub struct ModelListingView {
    pub platform: PlatformId,
    pub search_path: Seq<char>,
    pub port: u16,
    /// The call of the engine's `list`.
    pub call: EngineCallView,
    /// How the question to the HTTP interface ended, once it was asked.
    pub api: Option<CompletionView>,
}

impl ModelListingView {
    /// What the answer of the HTTP interface gives, after the engine's
    /// `list` failed with `stderr`: the models that the scan finds, or,
    /// where the question failed or the scan finds none, the failure of
    /// `list` with the engine's own words.
    pub open spec fn api_verdict(api: CompletionView, stderr: Seq<char>) -> Result<
        Seq<ModelRecordView>,
        SupervisorErrorView,
    > {
        match api {
            CompletionView::Finished(answer) => if answer.success && scanned_models(
                answer.stdout,
            ).len() > 0 {
                Ok(scanned_records(answer.stdout))
            } else {
                Err(list_failed(stderr))
            },
            CompletionView::NotStarted(_) => Err(list_failed(stderr)),
        }
    }

    /// What the caller is to do next.
    pub open spec fn pending(self) -> ListingStepView {
        match self.call.pending() {
            EngineStepView::Run(command) => ListingStepView::Run(command),
            EngineStepView::Done(EngineReplyView::NotInstalled(detail)) => ListingStepView::Done(
                Err(list_not_started(detail)),
            ),
            EngineStepView::Done(EngineReplyView::Ran { candidate, absolute, output }) => {
                if output.success {
                    ListingStepView::Done(Ok(listed_records(output.stdout)))
                } else if self.platform != PlatformId::Windows {
                    ListingStepView::Done(Err(list_failed(output.stderr)))
                } else {
                    match self.api {
                        None => ListingStepView::Run(tags_command(self.search_path, self.port)),
                        Some(api) => ListingStepView::Done(Self::api_verdict(api, output.stderr)),
                    }
                }
            },
        }
    }

    /// The listing after the caller has reported how the pending command
    /// ended. A listing that has ended takes no further report.
    pub open spec fn after(self, completion: CompletionView) -> ModelListingView {
        if !self.call.finished() {
            ModelListingView { call: self.call.after(completion), ..self }
        } else if self.pending() is Run {
            ModelListingView { api: Some(completion), ..self }
        } else {
            self
        }
    }
}

/// A listing of the engine's models.
pub struct ModelListing {
    platform: PlatformId,
    search_path: String,
    config: PortConfig,
    call: EngineCall,
    api: Option<Completion>,
}

impl View for ModelListing {
    type V = ModelListingView;

    closed spec fn view(&self) -> ModelListingView {
        ModelListingView {
            platform: self.platform,
            search_path: self.search_path@,
            port: self.config@,
            call: self.call@,
            api: match self.api {
                Some(api) => Some(api@),
                None => None,
            },
        }
    }
}

impl ModelListing {
    /// A listing over `candidates`, of which `exists` says for each whether
    /// its path is on disk.
    pub fn new(
        platform: PlatformId,
        candidates: Vec<ExecutableCandidate>,
        exists: Vec<bool>,
        search_path: &str,
        config: &PortConfig,
    ) -> (r: ModelListing)
        ensures
            r@ == (ModelListingView {
                platform,
                search_path: search_path@,
                port: config@,
                call: EngineCallView::initial(
                    candidates_view(candidates@),
                    exists@,
                    seq!["list"@],
                    search_path@,
                    config@,
                ),
                api: None,
            }),
    {
        ModelListing {
            platform,
            search_path: search_path.to_string(),
            config: *config,
            call: EngineCall::new(
                candidates,
                exists,
                list_args(),
                search_path.to_string(),
                config.port(),
            ),
            api: None,
        }
    }

    /// What the caller is to do next: run a command, or take the result.
    pub fn pending(&self) -> (r: ListingStep)
        ensures
            r@ == self@.pending(),
    {
        match self.call.pending() {
            EngineStep::Run(command) => ListingStep::Run(command),
            EngineStep::Done(EngineReply::NotInstalled(detail)) => ListingStep::Done(
                Err(make_list_not_started(detail.as_str())),
            ),
            EngineStep::Done(EngineReply::Ran { candidate, absolute, output }) => {
                if output.success {
                    ListingStep::Done(Ok(parse_model_records(output.stdout.as_str())))
                } else if self.platform != PlatformId::Windows {
                    ListingStep::Done(Err(make_list_failed(output.stderr.as_str())))
                } else {
                    match &self.api {
                        None => ListingStep::Run(
                            make_tags_command(self.search_path.as_str(), &self.config),
                        ),
                        Some(Completion::Finished(answer)) => {
                            if answer.success {
                                let found = scan_model_records(answer.stdout.as_str());
                                assert(records_view(found@).len() == found@.len());
                                if found.len() > 0 {
                                    return ListingStep::Done(Ok(found));
                                }
                            }
                            ListingStep::Done(Err(make_list_failed(output.stderr.as_str())))
                        },
                        Some(Completion::NotStarted(_)) => ListingStep::Done(
                            Err(make_list_failed(output.stderr.as_str())),
                        ),
                    }
                }
            },
        }
    }

    /// Takes the caller's report of how the pending command ended.
    pub fn record(&mut self, completion: Completion)
        ensures
            final(self)@ == old(self)@.after(completion@),
    {
        if !self.call.is_finished() {
            self.call.record(completion);
        } else {
            let wants_api = match self.pending() {
                ListingStep::Run(_) => true,
                ListingStep::Done(_) => false,
            };
            if wants_api {
                self.api = Some(completion);
            }
        }
    }
}

/// The directories where the engine keeps its models, in the order in which
/// they are read.
pub open spec fn model_directories(platform: PlatformId, host: HostProfileView) -> Seq<Seq<char>> {
    match platform {
        PlatformId::MacOs => seq![
            host.home + "/.ollama/models"@,
            "/usr/local/share/ollama/models"@,
            "/opt/homebrew/share/ollama/models"@,
        ],
        PlatformId::Windows => seq![
            host.user_profile + "\\AppData\\Local\\Ollama\\models"@,
            "C:\\Program Files\\Ollama\\models"@,
            "C:\\Program Files (x86)\\Ollama\\models"@,
        ],
        _ => Seq::empty(),
    }
}

/// The directories where the engine keeps its models.
pub fn get_model_directories(platform: PlatformId, host: &HostProfile) -> (r: Vec<String>)
    ensures
        texts(r@) == model_directories(platform, host@),
{
    let mut r: Vec<String> = Vec::new();
    match platform {
        PlatformId::MacOs => {
            let mut own = host.home.clone();
            own.append("/.ollama/models");
            push_arg(&mut r, own.as_str());
            push_arg(&mut r, "/usr/local/share/ollama/models");
            push_arg(&mut r, "/opt/homebrew/share/ollama/models");
        },
        PlatformId::Windows => {
            let mut own = host.user_profile.clone();
            own.append("\\AppData\\Local\\Ollama\\models");
            push_arg(&mut r, own.as_str());
            push_arg(&mut r, "C:\\Program Files\\Ollama\\models");
            push_arg(&mut r, "C:\\Program Files (x86)\\Ollama\\models");
        },
        _ => {},
    }
    assert(texts(r@) =~= model_directories(platform, host@));
    r
}

/// What a scan for models does after it has asked the engine.
pub enum ScanStep {
    /// These are the models.
    Names(Vec<String>),
    /// The engine did not tell: the models are the directories found in
    /// these directories, as far as they exist.
    ReadDirectories(Vec<String>),
}

pub enum ScanStepView {
    Names(Seq<Seq<char>>),
    ReadDirectories(Seq<Seq<char>>),
}

impl View for ScanStep {
    type V = ScanStepView;

    open spec fn view(&self) -> ScanStepView {
        match self {
            ScanStep::Names(names) => ScanStepView::Names(texts(names@)),
            ScanStep::ReadDirectories(directories) => ScanStepView::ReadDirectories(
                texts(directories@),
            ),
        }
    }
}

/// The command by which a scan asks the engine for its models.
pub open spec fn scan_command(platform: PlatformId, search_path: Seq<char>, port: u16) -> CommandLineView {
    plain_command(
        platform.engine_command(),
        seq!["list"@],
        crate::command::engine_env(search_path, port),
    )
}

pub fn make_scan_command(platform: PlatformId, search_path: &str, port: u16) -> (r: CommandLine)
    ensures
        r@ == scan_command(platform, search_path@, port),
{
    CommandLine {
        program: platform.engine_command_name(),
        args: list_args(),
        env: crate::command::make_engine_env(search_path, port),
        quiet: false,
        no_window: false,
    }
}

/// What a scan makes of the engine's answer: the models that the engine
/// lists; where the engine reports failure, the directories to read
/// instead; and where the engine could not be started, no models.
pub open spec fn scan_verdict(
    platform: PlatformId,
    host: HostProfileView,
    completion: CompletionView,
) -> ScanStepView {
    match completion {
        CompletionView::Finished(output) => if output.success {
            ScanStepView::Names(listed_models(output.stdout))
        } else {
            ScanStepView::ReadDirectories(model_directories(platform, host))
        },
        CompletionView::NotStarted(_) => ScanStepView::Names(Seq::empty()),
    }
}

/// Reads the engine's answer to a scan.
pub fn read_scan(platform: PlatformId, host: &HostProfile, completion: &Completion) -> (r: ScanStep)
    ensures
        r@ == scan_verdict(platform, host@, completion@),
{
    match completion {
        Completion::Finished(output) => {
            if output.success {
                ScanStep::Names(parse_model_list(output.stdout.as_str()))
            } else {
                ScanStep::ReadDirectories(get_model_directories(platform, host))
            }
        },
        Completion::NotStarted(_) => {
            let names: Vec<String> = Vec::new();
            assert(texts(names@) =~= Seq::<Seq<char>>::empty());
            ScanStep::Names(names)
        },
    }
}

} // verus!
