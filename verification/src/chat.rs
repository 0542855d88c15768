//! Asking a model, and making the engine load one.
//!
//! A question is put to the engine's `run` subcommand with `--verbose`, which
//! makes the engine print its timings beside the answer. The output is then
//! parted into the answer and the timings. Where the engine refuses
//! `--verbose`, the question is put once more without it.
//!
//! A model is loaded by sending it a first short prompt over the engine's
//! HTTP interface.

use vstd::prelude::*;
use vstd::string::StringExecFns;
use crate::command::{
    engine_env, make_engine_env, make_tool_env, plain_command, push_arg, tool_env, CommandLine,
    CommandLineView, Completion, CompletionView,
};
use crate::engine::{EngineCall, EngineCallView, EngineReply, EngineReplyView, EngineStep, EngineStepView};
use crate::errors::{
    indeterminate, make_indeterminate, make_not_installed, make_subcommand_failed, not_installed,
    subcommand_failed, verdict_view, SupervisorError, SupervisorErrorView,
};
use crate::paths::{candidates_view, ExecutableCandidate};
use crate::port::{api_url, get_ollama_api_url, PortConfig};
use crate::text::{chars_of, contains, contains_in, extend_chars, string_of};
use crate::words::{is_blank, is_blank_text, join, join_texts, lines, rows, split_lines, texts, trim, trim_text};

verus! {

/// Whether a line of the engine's verbose output is one of its timings.
pub open spec fn is_stats_line(line: Seq<char>) -> bool {
    ||| contains(line, "total duration:"@)
    ||| contains(line, "load duration:"@)
    ||| contains(line, "prompt eval"@)
    ||| contains(line, "eval count:"@)
    ||| contains(line, "eval duration:"@)
    ||| contains(line, "eval rate:"@)
}

/// Whether a line ends a run of timings: a line of white space alone, or one
/// that offers a web search.
pub open spec fn ends_stats(line: Seq<char>) -> bool {
    ||| is_blank(line)
    ||| contains(line, "also web search"@)
    ||| contains(line, "Suggested search:"@)
}

/// The lines of an output, parted into the answer and the timings.
pub struct VerboseParts {
    pub content: Seq<Seq<char>>,
    pub stats: Seq<Seq<char>>,
    /// Whether the last line belonged to a run of timings.
    pub in_stats: bool,
}

/// Parts the lines, from the first to the last. A timing line opens a run
/// of timings; the run takes every line up to one that ends it; that line and
/// every line outside a run belong to the answer.
pub open spec fn part_verbose(output: Seq<Seq<char>>) -> VerboseParts
    decreases output.len(),
{
    if output.len() == 0 {
        VerboseParts { content: Seq::empty(), stats: Seq::empty(), in_stats: false }
    } else {
        let before = part_verbose(output.drop_last());
        let line = output.last();
        if is_stats_line(line) {
            VerboseParts { stats: before.stats.push(line), in_stats: true, ..before }
        } else if !before.in_stats || ends_stats(line) {
            VerboseParts { content: before.content.push(line), in_stats: false, ..before }
        } else {
            VerboseParts { stats: before.stats.push(line), ..before }
        }
    }
}

/// What is shown for a verbose run: the answer without the white space
/// around it, and below it the timings, where there are any.
pub open spec fn verbose_answer(stdout: Seq<char>, stderr: Seq<char>) -> Seq<char> {
    let parts = part_verbose(lines(stdout + stderr));
    trim(join(parts.content, "\n"@)) + if parts.stats.len() > 0 {
        "\n\n=== VERBOSE STATS ===\n"@ + join(parts.stats, "\n"@)
    } else {
        Seq::empty()
    }
}

fn holds(line: &[char], word: &str) -> (r: bool)
    ensures
        r == contains(line@, word@),
{
    contains_in(line, chars_of(word).as_slice())
}

/// Whether a line of the engine's verbose output is one of its timings.
pub fn is_stats_line_of(line: &[char]) -> (r: bool)
    ensures
        r == is_stats_line(line@),
{
    holds(line, "total duration:") || holds(line, "load duration:") || holds(line, "prompt eval")
        || holds(line, "eval count:") || holds(line, "eval duration:") || holds(
        line,
        "eval rate:",
    )
}

/// Whether a line ends a run of timings.
pub fn ends_stats_of(line: &[char]) -> (r: bool)
    ensures
        r == ends_stats(line@),
{
    is_blank_text(line) || holds(line, "also web search") || holds(line, "Suggested search:")
}

/// What is shown for a verbose run that printed `stdout` and `stderr`.
pub fn format_verbose_answer(stdout: &str, stderr: &str) -> (r: String)
    ensures
        r@ == verbose_answer(stdout@, stderr@),
{
    let mut combined = chars_of(stdout);
    extend_chars(&mut combined, chars_of(stderr).as_slice());
    let output = split_lines(combined.as_slice());
    let mut content: Vec<Vec<char>> = Vec::new();
    let mut stats: Vec<Vec<char>> = Vec::new();
    let mut in_stats = false;
    let mut i: usize = 0;
    assert(rows(output@).take(0) =~= Seq::<Seq<char>>::empty());
    assert(rows(content@) =~= Seq::<Seq<char>>::empty());
    assert(rows(stats@) =~= Seq::<Seq<char>>::empty());
    while i < output.len()
        invariant
            i <= output.len(),
            part_verbose(rows(output@).take(i as int)).content == rows(content@),
            part_verbose(rows(output@).take(i as int)).stats == rows(stats@),
            part_verbose(rows(output@).take(i as int)).in_stats == in_stats,
        decreases output.len() - i,
    {
        let ghost next = rows(output@).take(i + 1);
        assert(next.drop_last() == rows(output@).take(i as int));
        assert(next.last() == output@[i as int]@);
        let ghost old_content = rows(content@);
        let ghost old_stats = rows(stats@);
        let line = output[i].as_slice();
        if is_stats_line_of(line) {
            stats.push(output[i].clone());
            in_stats = true;
            assert(rows(stats@) =~= old_stats.push(next.last()));
        } else if !in_stats || ends_stats_of(line) {
            content.push(output[i].clone());
            in_stats = false;
            assert(rows(content@) =~= old_content.push(next.last()));
        } else {
            stats.push(output[i].clone());
            assert(rows(stats@) =~= old_stats.push(next.last()));
        }
        i += 1;
    }
    assert(rows(output@).take(output.len() as int) == rows(output@));
    let newline = chars_of("\n");
    let joined = join_texts(&content, newline.as_slice());
    let mut answer = trim_text(joined.as_slice());
    if stats.len() > 0 {
        assert(rows(stats@).len() == stats@.len());
        extend_chars(&mut answer, chars_of("\n\n=== VERBOSE STATS ===\n").as_slice());
        extend_chars(&mut answer, join_texts(&stats, newline.as_slice()).as_slice());
    }
    string_of(answer.as_slice())
}

/// The arguments that put `prompt` to `model`, with the timings.
pub fn verbose_args(model: &str, prompt: &str) -> (r: Vec<String>)
    ensures
        texts(r@) == seq!["run"@, model@, "--verbose"@, prompt@],
{
    let mut args: Vec<String> = Vec::new();
    push_arg(&mut args, "run");
    push_arg(&mut args, model);
    push_arg(&mut args, "--verbose");
    push_arg(&mut args, prompt);
    assert(texts(args@) =~= seq!["run"@, model@, "--verbose"@, prompt@]);
    args
}

/// The failure of a question to a model, with the engine's own words.
pub open spec fn chat_failed(stderr: Seq<char>) -> SupervisorErrorView {
    subcommand_failed("Failed to run ollama with verbose: "@, stderr, ""@)
}

fn make_chat_failed(stderr: &str) -> (r: SupervisorError)
    ensures
        r@ == chat_failed(stderr@),
{
    make_subcommand_failed("Failed to run ollama with verbose: ", stderr, "")
}

/// What the caller of a chat is to do next.
pub enum ChatStep {
    /// Run this command to its end and report how it ended.
    Run(CommandLine),
    /// The chat has ended, with what is to be shown or with the failure.
    Done(Result<String, SupervisorError>),
}

pub enum ChatStepView {
    Run(CommandLineView),
    Done(Result<Seq<char>, SupervisorErrorView>),
}

impl View for ChatStep {
    type V = ChatStepView;

    open spec fn view(&self) -> ChatStepView {
        match self {
            ChatStep::Run(command) => ChatStepView::Run(command@),
            ChatStep::Done(result) => ChatStepView::Done(verdict_view(*result)),
        }
    }
}

/// The state of a chat.
pub struct VerboseChatView {
    pub model: Seq<char>,
    pub prompt: Seq<char>,
    pub search_path: Seq<char>,
    pub port: u16,
    /// The call of `run --verbose`.
    pub call: EngineCallView,
    /// How the run without `--verbose` ended, once it was made.
    pub plain: Option<CompletionView>,
}

impl VerboseChatView {
    /// The command that puts the question without `--verbose`, to the
    /// executable that refused it.
    pub open spec fn plain_run(self, candidate: Seq<char>) -> CommandLineView {
        plain_command(
            candidate,
            seq!["run"@, self.model, self.prompt],
            engine_env(self.search_path, self.port),
        )
    }

    /// What the run without `--verbose` gives, after the verbose run
    /// failed with `stderr`: its output with a remark, or the failure of
    /// the verbose run.
    pub open spec fn plain_verdict(plain: CompletionView, stderr: Seq<char>) -> Result<
        Seq<char>,
        SupervisorErrorView,
    > {
        match plain {
            CompletionView::Finished(output) => if output.success {
                Ok(output.stdout + "\n\n[Verbose mode not available: "@ + stderr + "]"@)
            } else {
                Err(chat_failed(stderr))
            },
            CompletionView::NotStarted(_) => Err(chat_failed(stderr)),
        }
    }

    /// What the caller is to do next.
    pub open spec fn pending(self) -> ChatStepView {
        match self.call.pending() {
            EngineStepView::Run(command) => ChatStepView::Run(command),
            EngineStepView::Done(EngineReplyView::NotInstalled(detail)) => ChatStepView::Done(
                Err(not_installed("Failed to run ollama verbose command: "@, detail, ""@)),
            ),
            EngineStepView::Done(EngineReplyView::Ran { candidate, absolute, output }) => {
                if output.success {
                    ChatStepView::Done(Ok(verbose_answer(output.stdout, output.stderr)))
                } else {
                    match self.plain {
                        None => ChatStepView::Run(self.plain_run(candidate)),
                        Some(plain) => ChatStepView::Done(Self::plain_verdict(plain, output.stderr)),
                    }
                }
            },
        }
    }

    /// The chat after the caller has reported how the pending command
    /// ended. A chat that has ended takes no further report.
    pub open spec fn after(self, completion: CompletionView) -> VerboseChatView {
        if !self.call.finished() {
            VerboseChatView { call: self.call.after(completion), ..self }
        } else if self.pending() is Run {
            VerboseChatView { plain: Some(completion), ..self }
        } else {
            self
        }
    }
}

/// One question to a model.
pub struct VerboseChat {
    model: String,
    prompt: String,
    search_path: String,
    port: u16,
    call: EngineCall,
    plain: Option<Completion>,
}

impl View for VerboseChat {
    type V = VerboseChatView;

    closed spec fn view(&self) -> VerboseChatView {
        VerboseChatView {
            model: self.model@,
            prompt: self.prompt@,
            search_path: self.search_path@,
            port: self.port,
            call: self.call@,
            plain: match self.plain {
                Some(plain) => Some(plain@),
                None => None,
            },
        }
    }
}

impl VerboseChat {
    /// The question `prompt` to `model`, over `candidates`, of which
    /// `exists` says for each whether its path is on disk.
    pub fn new(
        model: &str,
        prompt: &str,
        candidates: Vec<ExecutableCandidate>,
        exists: Vec<bool>,
        search_path: &str,
        port: u16,
    ) -> (r: VerboseChat)
        ensures
            r@ == (VerboseChatView {
                model: model@,
                prompt: prompt@,
                search_path: search_path@,
                port,
                call: EngineCallView::initial(
                    candidates_view(candidates@),
                    exists@,
                    seq!["run"@, model@, "--verbose"@, prompt@],
                    search_path@,
                    port,
                ),
                plain: None,
            }),
    {
        VerboseChat {
            model: model.to_string(),
            prompt: prompt.to_string(),
            search_path: search_path.to_string(),
            port,
            call: EngineCall::new(
                candidates,
                exists,
                verbose_args(model, prompt),
                search_path.to_string(),
                port,
            ),
            plain: None,
        }
    }

    /// What the caller is to do next: run a command, or take the result.
    pub fn pending(&self) -> (r: ChatStep)
        ensures
            r@ == self@.pending(),
    {
        match self.call.pending() {
            EngineStep::Run(command) => ChatStep::Run(command),
            EngineStep::Done(EngineReply::NotInstalled(detail)) => ChatStep::Done(
                Err(
                    make_not_installed("Failed to run ollama verbose command: ", detail.as_str(), ""),
                ),
            ),
            EngineStep::Done(EngineReply::Ran { candidate, absolute, output }) => {
                if output.success {
                    ChatStep::Done(
                        Ok(format_verbose_answer(output.stdout.as_str(), output.stderr.as_str())),
                    )
                } else {
                    match &self.plain {
                        None => {
                            let mut args: Vec<String> = Vec::new();
                            push_arg(&mut args, "run");
                            push_arg(&mut args, self.model.as_str());
                            push_arg(&mut args, self.prompt.as_str());
                            assert(texts(args@) =~= seq!["run"@, self.model@, self.prompt@]);
                            ChatStep::Run(
                                CommandLine {
                                    program: candidate,
                                    args,
                                    env: make_engine_env(self.search_path.as_str(), self.port),
                                    quiet: false,
                                    no_window: false,
                                },
                            )
                        },
                        Some(Completion::Finished(plain)) => {
                            if plain.success {
                                let mut text = plain.stdout.clone();
                                text.append("\n\n[Verbose mode not available: ");
                                text.append(output.stderr.as_str());
                                text.append("]");
                                ChatStep::Done(Ok(text))
                            } else {
                                ChatStep::Done(Err(make_chat_failed(output.stderr.as_str())))
                            }
                        },
                        Some(Completion::NotStarted(_)) => ChatStep::Done(
                            Err(make_chat_failed(output.stderr.as_str())),
                        ),
                    }
                }
            },
        }
    }

    /// Takes the caller's report of how the pending command ended.
    pub fn record(&mut self, completion: Completion)
        ensures
            final(self)@ == old(self)@.after(completion@),
    {
        if !self.call.is_finished() {
            self.call.record(completion);
        } else {
            let wants_plain = match self.pending() {
                ChatStep::Run(_) => true,
                ChatStep::Done(_) => false,
            };
            if wants_plain {
                self.plain = Some(completion);
            }
        }
    }
}

/// The body of the request that makes the engine load `model`.
pub open spec fn load_body(model: Seq<char>) -> Seq<char> {
    "{\"model\": \""@ + model + "\", \"prompt\": \"hello\", \"stream\": false}"@
}

/// The command that makes the engine load `model`: a first prompt, sent to
/// the engine's HTTP interface.
pub open spec fn load_command(search_path: Seq<char>, port: u16, model: Seq<char>) -> CommandLineView {
    plain_command(
        "curl"@,
        seq![
            "-X"@,
            "POST"@,
            api_url(port, "generate"@),
            "-H"@,
            "Content-Type: application/json"@,
            "-d"@,
            load_body(model),
        ],
        tool_env(search_path),
    )
}

pub fn make_load_command(search_path: &str, config: &PortConfig, model: &str) -> (r: CommandLine)
    ensures
        r@ == load_command(search_path@, config@, model@),
{
    let mut body = "{\"model\": \"".to_string();
    body.append(model);
    body.append("\", \"prompt\": \"hello\", \"stream\": false}");
    let mut args: Vec<String> = Vec::new();
    push_arg(&mut args, "-X");
    push_arg(&mut args, "POST");
    push_arg(&mut args, get_ollama_api_url(config, "generate").as_str());
    push_arg(&mut args, "-H");
    push_arg(&mut args, "Content-Type: application/json");
    push_arg(&mut args, "-d");
    push_arg(&mut args, body.as_str());
    assert(texts(args@) =~= load_command(search_path@, config@, model@).args);
    CommandLine {
        program: "curl".to_string(),
        args,
        env: make_tool_env(search_path),
        quiet: false,
        no_window: false,
    }
}

/// What the engine's answer to the first prompt says. An answer that
/// mentions `error` is the engine's refusal and is handed on as it is.
/// Every failure names the model where one was reached.
pub open spec fn load_verdict(model: Seq<char>, port: u16, completion: CompletionView) -> Result<
    Seq<char>,
    SupervisorErrorView,
> {
    match completion {
        CompletionView::Finished(output) => if !output.success {
            Err(subcommand_failed("Failed to load model '"@ + model + "': "@, output.stderr, ""@))
        } else if contains(output.stdout, "error"@) {
            Err(subcommand_failed("Failed to load model '"@ + model + "': "@, output.stdout, ""@))
        } else {
            Ok(
                "Model '"@ + model
                    + "' loaded successfully. API Response received. Command: curl -X POST "@
                    + api_url(port, "generate"@),
            )
        },
        CompletionView::NotStarted(error) => Err(indeterminate("Failed to load model: "@, error)),
    }
}

fn load_opening(model: &str) -> (r: String)
    ensures
        r@ == "Failed to load model '"@ + model@ + "': "@,
{
    let mut opening = "Failed to load model '".to_string();
    opening.append(model);
    opening.append("': ");
    opening
}

/// Reads the engine's answer to the first prompt for `model`.
pub fn read_load(model: &str, config: &PortConfig, completion: &Completion) -> (r: Result<
    String,
    SupervisorError,
>)
    ensures
        verdict_view(r) == load_verdict(model@, config@, completion@),
{
    match completion {
        Completion::Finished(output) => {
            if !output.success {
                Err(make_subcommand_failed(load_opening(model).as_str(), output.stderr.as_str(), ""))
            } else if holds(chars_of(output.stdout.as_str()).as_slice(), "error") {
                Err(make_subcommand_failed(load_opening(model).as_str(), output.stdout.as_str(), ""))
            } else {
                let mut text = "Model '".to_string();
                text.append(model);
                text.append("' loaded successfully. API Response received. Command: curl -X POST ");
                text.append(get_ollama_api_url(config, "generate").as_str());
                Ok(text)
            }
        },
        Completion::NotStarted(error) => Err(
            make_indeterminate("Failed to load model: ", error.as_str()),
        ),
    }
}

} // verus!
