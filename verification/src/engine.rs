//! Running one of the engine's own subcommands.
//!
//! A subcommand is run with the first candidate executable that can be
//! started: the bare command name through the augmented search path, then
//! each installation path that exists. A candidate that the system cannot
//! start hands over to the next; the first that starts decides the call,
//! whether the engine then reports success or failure. The call runs
//! nothing itself: it names the command to run next (`pending`) and is told
//! how it ended (`record`).

use vstd::prelude::*;
use crate::command::{
    engine_env, make_engine_env, plain_command, CommandLine, CommandLineView, CommandOutput,
    CommandOutputView, Completion, CompletionView,
};
use crate::paths::{candidates_view, next_usable, CandidateView, ExecutableCandidate};
use crate::words::texts;

verus! {

/// A copy of the arguments.
pub fn copy_texts(items: &Vec<String>) -> (r: Vec<String>)
    ensures
        texts(r@) == texts(items@),
{
    let mut r: Vec<String> = Vec::new();
    let mut i: usize = 0;
    while i < items.len()
        invariant
            i <= items.len(),
            texts(r@) == texts(items@).take(i as int),
        decreases items.len() - i,
    {
        let ghost so_far = texts(r@);
        let item = items[i].clone();
        r.push(item);
        assert(texts(r@) =~= so_far.push(item@));
        assert(so_far.push(item@) =~= texts(items@).take(i + 1));
        i += 1;
    }
    assert(texts(items@).take(items.len() as int) == texts(items@));
    r
}

impl CommandOutput {
    /// A copy of the output.
    pub fn duplicate(&self) -> (r: Self)
        ensures
            r@ == self@,
    {
        CommandOutput {
            success: self.success,
            code: self.code,
            stdout: self.stdout.clone(),
            stderr: self.stderr.clone(),
        }
    }
}

/// How a call of the engine ended.
pub enum EngineReply {
    /// The engine ran. `candidate` is the executable that was started,
    /// `absolute` tells whether it was found by an installation path rather
    /// than through the search path.
    Ran { candidate: String, absolute: bool, output: CommandOutput },
    /// No candidate could be started. The text is the system's message for
    /// the first that was tried, or empty where there was none to try.
    NotInstalled(String),
}

pub enum EngineReplyView {
    Ran { candidate: Seq<char>, absolute: bool, output: CommandOutputView },
    NotInstalled(Seq<char>),
}

impl View for EngineReply {
    type V = EngineReplyView;

    open spec fn view(&self) -> EngineReplyView {
        match self {
            EngineReply::Ran { candidate, absolute, output } => EngineReplyView::Ran {
                candidate: candidate@,
                absolute: *absolute,
                output: output@,
            },
            EngineReply::NotInstalled(detail) => EngineReplyView::NotInstalled(detail@),
        }
    }
}

/// What the caller of an engine call is to do next.
pub enum EngineStep {
    /// Run this command to its end and report how it ended.
    Run(CommandLine),
    /// The call has ended.
    Done(EngineReply),
}

pub enum EngineStepView {
    Run(CommandLineView),
    Done(EngineReplyView),
}

impl View for EngineStep {
    type V = EngineStepView;

    open spec fn view(&self) -> EngineStepView {
        match self {
            EngineStep::Run(command) => EngineStepView::Run(command@),
            EngineStep::Done(reply) => EngineStepView::Done(reply@),
        }
    }
}

/// The state of an engine call.
pub struct EngineCallView {
    pub candidates: Seq<CandidateView>,
    /// For each candidate, whether its path exists on disk.
    pub exists: Seq<bool>,
    /// The subcommand and its arguments.
    pub args: Seq<Seq<char>>,
    pub search_path: Seq<char>,
    pub port: u16,
    /// The candidate to run next; the number of candidates where none is
    /// left.
    pub cursor: nat,
    /// The system's message for the first candidate that could not be
    /// started.
    pub first_error: Option<Seq<char>>,
    /// The output of the candidate that ran, once one has.
    pub output: Option<CommandOutputView>,
}

impl EngineCallView {
    /// The call before anything was run.
    pub open spec fn initial(
        candidates: Seq<CandidateView>,
        exists: Seq<bool>,
        args: Seq<Seq<char>>,
        search_path: Seq<char>,
        port: u16,
    ) -> EngineCallView {
        let start = EngineCallView {
            candidates,
            exists,
            args,
            search_path,
            port,
            cursor: 0,
            first_error: None,
            output: None,
        };
        EngineCallView { cursor: next_usable(candidates, exists, 0), ..start }
    }

    /// Whether the call has ended.
    pub open spec fn finished(self) -> bool {
        self.output is Some || self.cursor >= self.candidates.len()
    }

    /// What the caller is to do next.
    pub open spec fn pending(self) -> EngineStepView {
        if self.cursor < self.candidates.len() {
            match self.output {
                Some(output) => EngineStepView::Done(
                    EngineReplyView::Ran {
                        candidate: self.candidates[self.cursor as int].path,
                        absolute: self.candidates[self.cursor as int].is_absolute,
                        output,
                    },
                ),
                None => EngineStepView::Run(
                    plain_command(
                        self.candidates[self.cursor as int].path,
                        self.args,
                        engine_env(self.search_path, self.port),
                    ),
                ),
            }
        } else {
            EngineStepView::Done(
                EngineReplyView::NotInstalled(
                    match self.first_error {
                        Some(error) => error,
                        None => Seq::empty(),
                    },
                ),
            )
        }
    }

    /// The call after the caller has reported how the pending command
    /// ended. A call that has ended takes no further report.
    pub open spec fn after(self, completion: CompletionView) -> EngineCallView {
        if self.finished() {
            self
        } else {
            match completion {
                CompletionView::Finished(output) => EngineCallView { output: Some(output), ..self },
                CompletionView::NotStarted(error) => EngineCallView {
                    cursor: next_usable(self.candidates, self.exists, self.cursor + 1),
                    first_error: match self.first_error {
                        Some(first) => Some(first),
                        None => Some(error),
                    },
                    ..self
                },
            }
        }
    }
}

/// One call of an engine subcommand.
pub struct EngineCall {
    candidates: Vec<ExecutableCandidate>,
    exists: Vec<bool>,
    args: Vec<String>,
    search_path: String,
    port: u16,
    cursor: usize,
    first_error: Option<String>,
    output: Option<CommandOutput>,
}

impl View for EngineCall {
    type V = EngineCallView;

    closed spec fn view(&self) -> EngineCallView {
        EngineCallView {
            candidates: candidates_view(self.candidates@),
            exists: self.exists@,
            args: texts(self.args@),
            search_path: self.search_path@,
            port: self.port,
            cursor: self.cursor as nat,
            first_error: match self.first_error {
                Some(error) => Some(error@),
                None => None,
            },
            output: match self.output {
                Some(output) => Some(output@),
                None => None,
            },
        }
    }
}

impl EngineCall {
    /// A call of the subcommand `args` over `candidates`, of which `exists`
    /// says for each whether its path is on disk (a candidate without an
    /// answer counts as missing).
    pub fn new(
        candidates: Vec<ExecutableCandidate>,
        exists: Vec<bool>,
        args: Vec<String>,
        search_path: String,
        port: u16,
    ) -> (r: EngineCall)
        ensures
            r@ == EngineCallView::initial(
                candidates_view(candidates@),
                exists@,
                texts(args@),
                search_path@,
                port,
            ),
    {
        let mut call = EngineCall {
            candidates,
            exists,
            args,
            search_path,
            port,
            cursor: 0,
            first_error: None,
            output: None,
        };
        let cursor = call.find_usable(0);
        call.cursor = cursor;
        call
    }

    /// The first candidate at or after `from` that can be started.
    fn find_usable(&self, from: usize) -> (r: usize)
        ensures
            r == next_usable(self@.candidates, self@.exists, from as nat),
    {
        let mut i: usize = from;
        while i < self.candidates.len() && (self.candidates[i].is_absolute && !(i
            < self.exists.len() && self.exists[i]))
            invariant
                from <= i,
                next_usable(self@.candidates, self@.exists, from as nat) == next_usable(
                    self@.candidates,
                    self@.exists,
                    i as nat,
                ),
            decreases self.candidates.len() - i,
        {
            i += 1;
        }
        if i >= self.candidates.len() {
            self.candidates.len()
        } else {
            i
        }
    }

    /// Whether the call has ended.
    pub fn is_finished(&self) -> (r: bool)
        ensures
            r == self@.finished(),
    {
        self.output.is_some() || self.cursor >= self.candidates.len()
    }

    /// What the caller is to do next: run a command, or take the reply.
    pub fn pending(&self) -> (r: EngineStep)
        ensures
            r@ == self@.pending(),
    {
        if self.cursor < self.candidates.len() {
            let candidate = &self.candidates[self.cursor];
            match &self.output {
                Some(output) => EngineStep::Done(
                    EngineReply::Ran {
                        candidate: candidate.path.clone(),
                        absolute: candidate.is_absolute,
                        output: output.duplicate(),
                    },
                ),
                None => EngineStep::Run(
                    CommandLine {
                        program: candidate.path.clone(),
                        args: copy_texts(&self.args),
                        env: make_engine_env(self.search_path.as_str(), self.port),
                        quiet: false,
                        no_window: false,
                    },
                ),
            }
        } else {
            match &self.first_error {
                Some(error) => EngineStep::Done(EngineReply::NotInstalled(error.clone())),
                None => EngineStep::Done(EngineReply::NotInstalled(String::new())),
            }
        }
    }

    /// Takes the caller's report of how the pending command ended. Output
    /// from the engine ends the call; a command that could not be started
    /// hands over to the next candidate that can.
    pub fn record(&mut self, completion: Completion)
        ensures
            final(self)@ == old(self)@.after(completion@),
    {
        if self.output.is_some() || self.cursor >= self.candidates.len() {
            return ;
        }
        match completion {
            Completion::Finished(output) => {
                self.output = Some(output);
            },
            Completion::NotStarted(error) => {
                if self.first_error.is_none() {
                    self.first_error = Some(error);
                }
                let next = self.find_usable(self.cursor + 1);
                self.cursor = next;
            },
        }
    }
}

} // verus!
