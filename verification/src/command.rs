//! Commands that the supervisor asks its caller to run, and what comes back
//! from them.
//!
//! The supervisor never starts a process itself. It describes the command,
//! with the environment the child is to get, and is told how the command
//! ended. Every command carries its environment explicitly, so that none
//! depends on what the caller happened to inherit.

use vstd::prelude::*;

use crate::decimal::{decimal, decimal_text};
use crate::text::string_of;
use crate::words::texts;

verus! {

/// One variable of a child's environment.
pub struct EnvVar {
    pub name: String,
    pub value: String,
}

pub struct EnvVarView {
    pub name: Seq<char>,
    pub value: Seq<char>,
}

impl View for EnvVar {
    type V = EnvVarView;

    open spec fn view(&self) -> EnvVarView {
        EnvVarView { name: self.name@, value: self.value@ }
    }
}

pub open spec fn env_view(v: Seq<EnvVar>) -> Seq<EnvVarView> {
    Seq::new(v.len(), |i: int| v[i]@)
}

/// A command: the program, its arguments, the variables to set in its
/// environment, and how it is to be started.
pub struct CommandLine {
    pub program: String,
    pub args: Vec<String>,
    pub env: Vec<EnvVar>,
    /// Whether the child's standard output and error are discarded.
    pub quiet: bool,
    /// Whether the child is started without a console window of its own
    /// (Windows).
    pub no_window: bool,
}

pub struct CommandLineView {
    pub program: Seq<char>,
    pub args: Seq<Seq<char>>,
    pub env: Seq<EnvVarView>,
    pub quiet: bool,
    pub no_window: bool,
}

impl View for CommandLine {
    type V = CommandLineView;

    open spec fn view(&self) -> CommandLineView {
        CommandLineView {
            program: self.program@,
            args: texts(self.args@),
            env: env_view(self.env@),
            quiet: self.quiet,
            no_window: self.no_window,
        }
    }
}

/// How a command that was waited for ended.
pub struct CommandOutput {
    /// Whether it ended with the exit code of success.
    pub success: bool,
    /// Its exit code, where it ended with one.
    pub code: Option<i32>,
    pub stdout: String,
    pub stderr: String,
}

pub struct CommandOutputView {
    pub success: bool,
    pub code: Option<i32>,
    pub stdout: Seq<char>,
    pub stderr: Seq<char>,
}

impl View for CommandOutput {
    type V = CommandOutputView;

    open spec fn view(&self) -> CommandOutputView {
        CommandOutputView {
            success: self.success,
            code: self.code,
            stdout: self.stdout@,
            stderr: self.stderr@,
        }
    }
}

/// What became of a command that was to be run to its end.
pub enum Completion {
    /// It ran and ended.
    Finished(CommandOutput),
    /// It could not be started; the text is the system's own message.
    NotStarted(String),
}

pub enum CompletionView {
    Finished(CommandOutputView),
    NotStarted(Seq<char>),
}

impl View for Completion {
    type V = CompletionView;

    open spec fn view(&self) -> CompletionView {
        match self {
            Completion::Finished(output) => CompletionView::Finished(output@),
            Completion::NotStarted(error) => CompletionView::NotStarted(error@),
        }
    }
}

/// The variable that carries the search path.
pub open spec fn path_var(search_path: Seq<char>) -> EnvVarView {
    EnvVarView { name: "PATH"@, value: search_path }
}

/// The variable that tells the engine's port to the child.
pub open spec fn port_var(port: u16) -> EnvVarView {
    EnvVarView { name: "OLLAMA_PORT"@, value: decimal(port as nat) }
}

/// The environment of every command that deals with the engine: the
/// augmented search path and the configured port.
pub open spec fn engine_env(search_path: Seq<char>, port: u16) -> Seq<EnvVarView> {
    seq![path_var(search_path), port_var(port)]
}

/// The environment of a command that does not deal with the engine itself:
/// the augmented search path alone.
pub open spec fn tool_env(search_path: Seq<char>) -> Seq<EnvVarView> {
    seq![path_var(search_path)]
}

pub fn make_tool_env(search_path: &str) -> (r: Vec<EnvVar>)
    ensures
        env_view(r@) == tool_env(search_path@),
{
    let mut env: Vec<EnvVar> = Vec::new();
    env.push(make_path_var(search_path));
    assert(env_view(env@) =~= tool_env(search_path@));
    env
}

pub fn make_path_var(search_path: &str) -> (r: EnvVar)
    ensures
        r@ == path_var(search_path@),
{
    EnvVar { name: "PATH".to_string(), value: search_path.to_string() }
}

pub fn make_port_var(port: u16) -> (r: EnvVar)
    ensures
        r@ == port_var(port),
{
    EnvVar {
        name: "OLLAMA_PORT".to_string(),
        value: string_of(decimal_text(port as u64).as_slice()),
    }
}

pub fn make_engine_env(search_path: &str, port: u16) -> (r: Vec<EnvVar>)
    ensures
        env_view(r@) == engine_env(search_path@, port),
{
    let mut env: Vec<EnvVar> = Vec::new();
    env.push(make_path_var(search_path));
    env.push(make_port_var(port));
    assert(env_view(env@) =~= engine_env(search_path@, port));
    env
}

/// A command that is waited for, with the given arguments and environment.
pub open spec fn plain_command(
    program: Seq<char>,
    args: Seq<Seq<char>>,
    env: Seq<EnvVarView>,
) -> CommandLineView {
    CommandLineView { program, args, env, quiet: false, no_window: false }
}

/// Appends one argument, given as a literal or a borrowed text.
pub fn push_arg(args: &mut Vec<String>, arg: &str)
    ensures
        texts(final(args)@) == texts(old(args)@).push(arg@),
{
    args.push(arg.to_string());
    assert(texts(args@) =~= texts(old(args)@).push(arg@));
}

} // verus!
