//! Installing the engine.
//!
//! How the engine is installed differs by platform: through Homebrew on
//! macOS, through the vendor's script on Linux, and by hand from the
//! vendor's download page on Windows. The commands that do the work are
//! the vendor's and the system's; all that is observed of them is how they
//! end, and that is what the user is told, word for word.

use vstd::prelude::*;
use vstd::string::StringExecFns;
use crate::command::{
    make_tool_env, plain_command, push_arg, tool_env, CommandLine, CommandLineView, Completion,
    CompletionView,
};
use crate::text::{chars_of, string_of};
use crate::words::{text_result_view, texts, trim, trim_text};

verus! {

/// The download page for Windows.
pub open spec fn download_page() -> Seq<char> {
    "https://ollama.com/download/windows"@
}

/// The line that the shell runs to install the engine on Linux.
pub open spec fn install_script_line() -> Seq<char> {
    "curl -fsSL https://ollama.com/install.sh | sh"@
}

/// The command that opens the download page in the user's browser.
pub open spec fn open_page_command(search_path: Seq<char>) -> CommandLineView {
    plain_command("cmd"@, seq!["/C"@, "start"@, download_page()], tool_env(search_path))
}

/// The command that runs the vendor's installation script.
pub open spec fn install_script_command(search_path: Seq<char>) -> CommandLineView {
    plain_command("sh"@, seq!["-c"@, install_script_line()], tool_env(search_path))
}

pub fn make_open_page_command(search_path: &str) -> (r: CommandLine)
    ensures
        r@ == open_page_command(search_path@),
{
    let mut args: Vec<String> = Vec::new();
    push_arg(&mut args, "/C");
    push_arg(&mut args, "start");
    push_arg(&mut args, "https://ollama.com/download/windows");
    assert(texts(args@) =~= seq!["/C"@, "start"@, download_page()]);
    CommandLine {
        program: "cmd".to_string(),
        args,
        env: make_tool_env(search_path),
        quiet: false,
        no_window: false,
    }
}

pub fn make_install_script_command(search_path: &str) -> (r: CommandLine)
    ensures
        r@ == install_script_command(search_path@),
{
    let mut args: Vec<String> = Vec::new();
    push_arg(&mut args, "-c");
    push_arg(&mut args, "curl -fsSL https://ollama.com/install.sh | sh");
    assert(texts(args@) =~= seq!["-c"@, install_script_line()]);
    CommandLine {
        program: "sh".to_string(),
        args,
        env: make_tool_env(search_path),
        quiet: false,
        no_window: false,
    }
}

/// What the user is told after the download page was to be opened.
pub open spec fn open_page_verdict(completion: CompletionView) -> Result<Seq<char>, Seq<char>> {
    match completion {
        CompletionView::Finished(_) => Ok(
            "Opening Ollama download page in your browser. Please download and install Ollama, then restart this app."@,
        ),
        CompletionView::NotStarted(error) => Err(
            "Failed to open download page. Please visit "@ + download_page()
                + " manually to download Ollama. Error: "@ + error,
        ),
    }
}

/// What the user is told after the installation script ran.
pub open spec fn install_script_verdict(completion: CompletionView) -> Result<Seq<char>, Seq<char>> {
    match completion {
        CompletionView::Finished(output) => if output.success {
            Ok("Ollama installed successfully!\n\nOutput:\n"@ + trim(output.stdout))
        } else {
            Err("Failed to install Ollama. Error:\n"@ + output.stderr)
        },
        CompletionView::NotStarted(error) => Err(
            "Failed to run installation script. Error: "@ + error
                + "\n\nPlease try running this command manually in your terminal:\n"@
                + install_script_line(),
        ),
    }
}

fn trimmed(text: &str) -> (r: String)
    ensures
        r@ == trim(text@),
{
    string_of(trim_text(chars_of(text).as_slice()).as_slice())
}

pub fn read_open_page(completion: &Completion) -> (r: Result<String, String>)
    ensures
        text_result_view(r) == open_page_verdict(completion@),
{
    match completion {
        Completion::Finished(_) => Ok(
            "Opening Ollama download page in your browser. Please download and install Ollama, then restart this app.".to_string(),
        ),
        Completion::NotStarted(error) => {
            let mut message = "Failed to open download page. Please visit ".to_string();
            message.append("https://ollama.com/download/windows");
            message.append(" manually to download Ollama. Error: ");
            message.append(error.as_str());
            Err(message)
        },
    }
}

pub fn read_install_script(completion: &Completion) -> (r: Result<String, String>)
    ensures
        text_result_view(r) == install_script_verdict(completion@),
{
    match completion {
        Completion::Finished(output) => {
            if output.success {
                let mut message = "Ollama installed successfully!\n\nOutput:\n".to_string();
                message.append(trimmed(output.stdout.as_str()).as_str());
                Ok(message)
            } else {
                let mut message = "Failed to install Ollama. Error:\n".to_string();
                message.append(output.stderr.as_str());
                Err(message)
            }
        },
        Completion::NotStarted(error) => {
            let mut message = "Failed to run installation script. Error: ".to_string();
            message.append(error.as_str());
            message.append("\n\nPlease try running this command manually in your terminal:\n");
            message.append("curl -fsSL https://ollama.com/install.sh | sh");
            Err(message)
        },
    }
}

/// The places where Homebrew is usually installed, in the order in which
/// they are looked at.
pub open spec fn brew_places() -> Seq<Seq<char>> {
    seq!["/opt/homebrew/bin/brew"@, "/usr/local/bin/brew"@, "/home/linuxbrew/.linuxbrew/bin/brew"@]
}

/// The first of the places at or after `from` that exists.
pub open spec fn first_present(exists: Seq<bool>, from: int) -> Option<int>
    decreases brew_places().len() - from,
{
    if from < 0 || from >= brew_places().len() {
        None
    } else if from < exists.len() && exists[from] {
        Some(from)
    } else {
        first_present(exists, from + 1)
    }
}

/// What the look at the places from `from` on adds to the notes: a line
/// for each place up to the first that exists.
pub open spec fn places_notes(exists: Seq<bool>, from: int) -> Seq<char>
    decreases brew_places().len() - from,
{
    if from < 0 || from >= brew_places().len() {
        Seq::empty()
    } else if from < exists.len() && exists[from] {
        "Checking "@ + brew_places()[from] + ": Found!\n"@
    } else {
        "Checking "@ + brew_places()[from] + ": Not found\n"@ + places_notes(exists, from + 1)
    }
}

/// Where an installation through Homebrew stands.
#[derive(Clone, Copy, PartialEq, Eq, Debug, Structural)]
pub enum BrewPhase {
    /// The search path is being asked for Homebrew.
    Locating,
    /// Homebrew is being asked for its version.
    Version,
    /// Homebrew installs the engine.
    Installing,
    /// The installation has ended.
    Finished,
}

/// What the caller of an installation is to do next.
pub enum BrewStep {
    /// Run this command to its end and report how it ended.
    Run(CommandLine),
    /// The installation has ended; this is what the user is told.
    Done(Result<String, String>),
}

pub enum BrewStepView {
    Run(CommandLineView),
    Done(Result<Seq<char>, Seq<char>>),
}

impl View for BrewStep {
    type V = BrewStepView;

    open spec fn view(&self) -> BrewStepView {
        match self {
            BrewStep::Run(command) => BrewStepView::Run(command@),
            BrewStep::Done(result) => BrewStepView::Done(text_result_view(*result)),
        }
    }
}

/// The state of an installation through Homebrew.
pub struct BrewInstallView {
    pub search_path: Seq<char>,
    /// For each of `brew_places`, whether it exists on disk.
    pub exists: Seq<bool>,
    pub phase: BrewPhase,
    /// The Homebrew executable; empty until it is found.
    pub brew: Seq<char>,
    /// The notes on what was looked at, which go into the final message.
    pub notes: Seq<char>,
    pub result: Result<Seq<char>, Seq<char>>,
}

impl BrewInstallView {
    /// The installation before its first step.
    pub open spec fn initial(base_path: Seq<char>, search_path: Seq<char>, exists: Seq<bool>) -> BrewInstallView {
        BrewInstallView {
            search_path,
            exists,
            phase: BrewPhase::Locating,
            brew: Seq::empty(),
            notes: "Current PATH: "@ + base_path + "\nExtended PATH: "@ + search_path + "\n"@,
            result: Err(Seq::empty()),
        }
    }

    pub open spec fn command(self, program: Seq<char>, args: Seq<Seq<char>>) -> CommandLineView {
        plain_command(program, args, tool_env(self.search_path))
    }

    /// What the caller is to do next.
    pub open spec fn pending(self) -> BrewStepView {
        match self.phase {
            BrewPhase::Locating => BrewStepView::Run(self.command("which"@, seq!["brew"@])),
            BrewPhase::Version => BrewStepView::Run(self.command(self.brew, seq!["--version"@])),
            BrewPhase::Installing => BrewStepView::Run(
                self.command(self.brew, seq!["install"@, "ollama"@]),
            ),
            BrewPhase::Finished => BrewStepView::Done(self.result),
        }
    }

    /// Homebrew was found at `brew`.
    pub open spec fn found(self, notes: Seq<char>, brew: Seq<char>) -> BrewInstallView {
        BrewInstallView {
            phase: BrewPhase::Version,
            brew,
            notes: notes + "Using brew at: "@ + brew + "\n"@,
            ..self
        }
    }

    /// Homebrew was found nowhere: the installation ends.
    pub open spec fn missing(self, notes: Seq<char>) -> BrewInstallView {
        BrewInstallView {
            phase: BrewPhase::Finished,
            notes,
            result: Err(
                "Homebrew not found in any common locations.\n\nDebug info:\n"@ + notes
                    + "\nPlease install Homebrew first from https://brew.sh or download Ollama manually from ollama.ai"@,
            ),
            ..self
        }
    }

    /// After the usual places were looked at, because the search path did
    /// not lead to Homebrew.
    pub open spec fn looked(self, notes: Seq<char>) -> BrewInstallView {
        let all = notes + "Checking common Homebrew paths directly:\n"@ + places_notes(
            self.exists,
            0,
        );
        match first_present(self.exists, 0) {
            Some(index) => self.found(all, brew_places()[index]),
            None => self.missing(all),
        }
    }

    /// After the search path was asked for Homebrew.
    pub open spec fn located(self, completion: CompletionView) -> BrewInstallView {
        match completion {
            CompletionView::Finished(output) => if output.success {
                if trim(output.stdout).len() > 0 {
                    self.found(
                        self.notes + "Found brew via which: "@ + trim(output.stdout) + "\n"@,
                        trim(output.stdout),
                    )
                } else {
                    self.looked(self.notes)
                }
            } else {
                self.looked(self.notes + "which brew failed: "@ + output.stderr + "\n"@)
            },
            CompletionView::NotStarted(_) => self.looked(
                self.notes + "Failed to run which command\n"@,
            ),
        }
    }

    /// What Homebrew's answer to `--version` adds to the notes.
    pub open spec fn version_note(completion: CompletionView) -> Seq<char> {
        match completion {
            CompletionView::Finished(output) => if output.success {
                "Homebrew version: "@ + trim(output.stdout) + "\n"@
            } else {
                "Brew version check failed: "@ + output.stderr + "\n"@
            },
            CompletionView::NotStarted(error) => "Failed to run brew --version: "@ + error + "\n"@,
        }
    }

    /// After Homebrew was asked for its version. Whatever it answered, the
    /// installation goes on.
    pub open spec fn versioned(self, completion: CompletionView) -> BrewInstallView {
        BrewInstallView {
            phase: BrewPhase::Installing,
            notes: self.notes + Self::version_note(completion) + "Running: brew install ollama\n"@,
            ..self
        }
    }

    /// What the user is told after Homebrew ran.
    pub open spec fn install_verdict(self, completion: CompletionView) -> Result<Seq<char>, Seq<char>> {
        match completion {
            CompletionView::Finished(output) => if output.success {
                Ok(
                    "Ollama installed successfully via Homebrew at "@ + self.brew
                        + ".\n\nDebug info:\n"@ + self.notes + "\nOutput: "@ + trim(output.stdout),
                )
            } else {
                Err(
                    "Homebrew installation failed.\n\nDebug info:\n"@ + self.notes + "\nError: "@
                        + output.stderr,
                )
            },
            CompletionView::NotStarted(error) => Err(
                "Failed to run brew install.\n\nDebug info:\n"@ + self.notes + "\nError: "@ + error,
            ),
        }
    }

    /// The installation after the caller has reported how the pending
    /// command ended. An installation that has ended takes no further
    /// report.
    pub open spec fn after(self, completion: CompletionView) -> BrewInstallView {
        match self.phase {
            BrewPhase::Locating => self.located(completion),
            BrewPhase::Version => self.versioned(completion),
            BrewPhase::Installing => BrewInstallView {
                phase: BrewPhase::Finished,
                result: self.install_verdict(completion),
                ..self
            },
            BrewPhase::Finished => self,
        }
    }
}

/// An installation of the engine through Homebrew.
pub struct BrewInstall {
    search_path: String,
    exists: Vec<bool>,
    phase: BrewPhase,
    brew: String,
    notes: String,
    result: Result<String, String>,
}

impl View for BrewInstall {
    type V = BrewInstallView;

    closed spec fn view(&self) -> BrewInstallView {
        BrewInstallView {
            search_path: self.search_path@,
            exists: self.exists@,
            phase: self.phase,
            brew: self.brew@,
            notes: self.notes@,
            result: text_result_view(self.result),
        }
    }
}

/// The places where Homebrew is usually installed.
pub fn get_brew_places() -> (r: Vec<String>)
    ensures
        texts(r@) == brew_places(),
{
    let mut places: Vec<String> = Vec::new();
    push_arg(&mut places, "/opt/homebrew/bin/brew");
    push_arg(&mut places, "/usr/local/bin/brew");
    push_arg(&mut places, "/home/linuxbrew/.linuxbrew/bin/brew");
    assert(texts(places@) =~= brew_places());
    places
}

impl BrewInstall {
    /// An installation. `base_path` is the inherited search path,
    /// `search_path` the augmented one; `exists` says for each of
    /// `brew_places` whether it is on disk.
    pub fn new(base_path: &str, search_path: &str, exists: Vec<bool>) -> (r: BrewInstall)
        ensures
            r@ == BrewInstallView::initial(base_path@, search_path@, exists@),
    {
        let mut notes = "Current PATH: ".to_string();
        notes.append(base_path);
        notes.append("\nExtended PATH: ");
        notes.append(search_path);
        notes.append("\n");
        proof {
            reveal_strlit("");
        }
        BrewInstall {
            search_path: search_path.to_string(),
            exists,
            phase: BrewPhase::Locating,
            brew: String::new(),
            notes,
            result: Err(String::new()),
        }
    }

    fn command(&self, program: &str, args: Vec<String>) -> (r: CommandLine)
        ensures
            r@ == self@.command(program@, texts(args@)),
    {
        CommandLine {
            program: program.to_string(),
            args,
            env: make_tool_env(self.search_path.as_str()),
            quiet: false,
            no_window: false,
        }
    }

    /// What the caller is to do next.
    pub fn pending(&self) -> (r: BrewStep)
        ensures
            r@ == self@.pending(),
    {
        let mut args: Vec<String> = Vec::new();
        match self.phase {
            BrewPhase::Locating => {
                push_arg(&mut args, "brew");
                assert(texts(args@) =~= seq!["brew"@]);
                BrewStep::Run(self.command("which", args))
            },
            BrewPhase::Version => {
                push_arg(&mut args, "--version");
                assert(texts(args@) =~= seq!["--version"@]);
                BrewStep::Run(self.command(self.brew.as_str(), args))
            },
            BrewPhase::Installing => {
                push_arg(&mut args, "install");
                push_arg(&mut args, "ollama");
                assert(texts(args@) =~= seq!["install"@, "ollama"@]);
                BrewStep::Run(self.command(self.brew.as_str(), args))
            },
            BrewPhase::Finished => match &self.result {
                Ok(text) => BrewStep::Done(Ok(text.clone())),
                Err(text) => BrewStep::Done(Err(text.clone())),
            },
        }
    }

    fn use_brew(&mut self, brew: String)
        ensures
            final(self)@ == old(self)@.found(old(self)@.notes, brew@),
    {
        self.notes.append("Using brew at: ");
        self.notes.append(brew.as_str());
        self.notes.append("\n");
        self.brew = brew;
        self.phase = BrewPhase::Version;
    }

    fn look_at_places(&mut self)
        ensures
            final(self)@ == old(self)@.looked(old(self)@.notes),
    {
        let places = get_brew_places();
        self.notes.append("Checking common Homebrew paths directly:\n");
        let ghost start = self.notes@;
        let mut i: usize = 0;
        while i < places.len()
            invariant
                i <= places.len(),
                texts(places@) == brew_places(),
                start == old(self)@.notes + "Checking common Homebrew paths directly:\n"@,
                self@ == (BrewInstallView { notes: self@.notes, ..old(self)@ }),
                self@.notes + places_notes(self@.exists, i as int) == start + places_notes(
                    self@.exists,
                    0,
                ),
                first_present(self@.exists, i as int) == first_present(self@.exists, 0),
            decreases places.len() - i,
        {
            let ghost before = self.notes@;
            assert(texts(places@)[i as int] == places@[i as int]@);
            self.notes.append("Checking ");
            self.notes.append(places[i].as_str());
            if i < self.exists.len() && self.exists[i] {
                self.notes.append(": Found!\n");
                assert(self.notes@ =~= before + places_notes(self@.exists, i as int));
                assert(first_present(self@.exists, i as int) == Some(i as int));
                let ghost all = self.notes@;
                assert(all == start + places_notes(old(self)@.exists, 0));
                let brew = places[i].clone();
                assert(brew@ == brew_places()[i as int]);
                self.use_brew(brew);
                assert(self@ == old(self)@.found(all, brew_places()[i as int]));
                return ;
            }
            self.notes.append(": Not found\n");
            assert(self.notes@ + places_notes(self@.exists, i + 1) =~= before + places_notes(
                self@.exists,
                i as int,
            ));
            i += 1;
        }
        assert(self.notes@ =~= start + places_notes(self@.exists, 0));
        let mut message = "Homebrew not found in any common locations.\n\nDebug info:\n".to_string();
        message.append(self.notes.as_str());
        message.append(
            "\nPlease install Homebrew first from https://brew.sh or download Ollama manually from ollama.ai",
        );
        self.result = Err(message);
        self.phase = BrewPhase::Finished;
    }

    /// Takes the caller's report of how the pending command ended.
    pub fn record(&mut self, completion: Completion)
        ensures
            final(self)@ == old(self)@.after(completion@),
    {
        match self.phase {
            BrewPhase::Locating => {
                match &completion {
                    Completion::Finished(output) => {
                        if output.success {
                            let place = trimmed(output.stdout.as_str());
                            if chars_of(place.as_str()).len() > 0 {
                                self.notes.append("Found brew via which: ");
                                self.notes.append(place.as_str());
                                self.notes.append("\n");
                                self.use_brew(place);
                            } else {
                                self.look_at_places();
                            }
                        } else {
                            self.notes.append("which brew failed: ");
                            self.notes.append(output.stderr.as_str());
                            self.notes.append("\n");
                            self.look_at_places();
                        }
                    },
                    Completion::NotStarted(_) => {
                        self.notes.append("Failed to run which command\n");
                        self.look_at_places();
                    },
                }
            },
            BrewPhase::Version => {
                match &completion {
                    Completion::Finished(output) => {
                        if output.success {
                            self.notes.append("Homebrew version: ");
                            self.notes.append(trimmed(output.stdout.as_str()).as_str());
                        } else {
                            self.notes.append("Brew version check failed: ");
                            self.notes.append(output.stderr.as_str());
                        }
                    },
                    Completion::NotStarted(error) => {
                        self.notes.append("Failed to run brew --version: ");
                        self.notes.append(error.as_str());
                    },
                }
                self.notes.append("\n");
                self.notes.append("Running: brew install ollama\n");
                self.phase = BrewPhase::Installing;
                assert(self@.notes =~= old(self)@.versioned(completion@).notes);
            },
            BrewPhase::Installing => {
                let mut message: String;
                let ok: bool;
                match &completion {
                    Completion::Finished(output) => {
                        if output.success {
                            message = "Ollama installed successfully via Homebrew at ".to_string();
                            message.append(self.brew.as_str());
                            message.append(".\n\nDebug info:\n");
                            message.append(self.notes.as_str());
                            message.append("\nOutput: ");
                            message.append(trimmed(output.stdout.as_str()).as_str());
                            ok = true;
                        } else {
                            message = "Homebrew installation failed.\n\nDebug info:\n".to_string();
                            message.append(self.notes.as_str());
                            message.append("\nError: ");
                            message.append(output.stderr.as_str());
                            ok = false;
                        }
                    },
                    Completion::NotStarted(error) => {
                        message = "Failed to run brew install.\n\nDebug info:\n".to_string();
                        message.append(self.notes.as_str());
                        message.append("\nError: ");
                        message.append(error.as_str());
                        ok = false;
                    },
                }
                self.result = if ok {
                    Ok(message)
                } else {
                    Err(message)
                };
                self.phase = BrewPhase::Finished;
            },
            BrewPhase::Finished => {},
        }
    }
}

} // verus!
