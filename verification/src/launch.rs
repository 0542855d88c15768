//! Starting the engine as a background process.
//!
//! There are several ways to start a detached process, and which of them
//! works depends on the machine. The chain tries them in a fixed order, for
//! each candidate executable in turn, and ends at the first that spawns.
//! Spawning is all it reports: whether the engine serves is a question for
//! the health check. Every attempt is recorded, so that a chain that fails
//! throughout can say why each single attempt failed.
//!
//! The chain starts no process itself. It names the command to spawn next
//! (`pending`) and is told how the spawn went (`record`).

use vstd::prelude::*;
use vstd::string::StringExecFns;
use crate::command::{
    engine_env, make_engine_env, make_port_var, port_var, push_arg, CommandLine, CommandLineView,
};
use crate::paths::{candidates_view, usable, CandidateView, ExecutableCandidate};
use crate::platform::PlatformId;

verus! {

/// One way of starting the engine in the background.
#[derive(Clone, Copy, PartialEq, Eq, Debug, Structural)]
pub enum LaunchStrategy {
    /// Through `nohup`, which detaches the engine from the caller's
    /// session; its output is discarded.
    DaemonWrapper,
    /// The executable itself, with the augmented environment and its
    /// output discarded.
    DetachedSpawn,
    /// Through the system's shell, which puts the engine in the
    /// background.
    ShellSpawn,
    /// The executable itself, without a console window of its own. On
    /// Windows only.
    ConsoleLauncher,
}

/// The strategies of a platform, in the order in which they are tried for
/// each candidate.
pub open spec fn strategies(platform: PlatformId) -> Seq<LaunchStrategy> {
    if platform == PlatformId::Windows {
        seq![
            LaunchStrategy::DaemonWrapper,
            LaunchStrategy::DetachedSpawn,
            LaunchStrategy::ShellSpawn,
            LaunchStrategy::ConsoleLauncher,
        ]
    } else {
        seq![LaunchStrategy::DaemonWrapper, LaunchStrategy::DetachedSpawn, LaunchStrategy::ShellSpawn]
    }
}

/// The line that the shell runs on macOS and Linux: it exports the augmented
/// search path and puts the engine in the background.
pub open spec fn shell_line(candidate: Seq<char>, search_path: Seq<char>) -> Seq<char> {
    "export PATH=\""@ + search_path + "\" && \""@ + candidate + "\" serve &"@
}

/// The command by which `strategy` starts the executable `candidate`.
pub open spec fn launch_command(
    platform: PlatformId,
    strategy: LaunchStrategy,
    candidate: Seq<char>,
    search_path: Seq<char>,
    port: u16,
) -> CommandLineView {
    match strategy {
        LaunchStrategy::DaemonWrapper => CommandLineView {
            program: "nohup"@,
            args: seq![candidate, "serve"@],
            env: engine_env(search_path, port),
            quiet: true,
            no_window: false,
        },
        LaunchStrategy::DetachedSpawn => CommandLineView {
            program: candidate,
            args: seq!["serve"@],
            env: engine_env(search_path, port),
            quiet: true,
            no_window: false,
        },
        LaunchStrategy::ShellSpawn => if platform == PlatformId::Windows {
            CommandLineView {
                program: "cmd"@,
                args: seq!["/C"@, "start"@, "/B"@, candidate, "serve"@],
                env: engine_env(search_path, port),
                quiet: false,
                no_window: false,
            }
        } else {
            CommandLineView {
                program: "bash"@,
                args: seq!["-c"@, shell_line(candidate, search_path)],
                env: seq![port_var(port)],
                quiet: false,
                no_window: false,
            }
        },
        LaunchStrategy::ConsoleLauncher => CommandLineView {
            program: candidate,
            args: seq!["serve"@],
            env: engine_env(search_path, port),
            quiet: false,
            no_window: true,
        },
    }
}

/// The command by which `strategy` starts the executable `candidate`.
pub fn make_launch_command(
    platform: PlatformId,
    strategy: LaunchStrategy,
    candidate: &str,
    search_path: &str,
    port: u16,
) -> (r: CommandLine)
    ensures
        r@ == launch_command(platform, strategy, candidate@, search_path@, port),
{
    let mut args: Vec<String> = Vec::new();
    match strategy {
        LaunchStrategy::DaemonWrapper => {
            push_arg(&mut args, candidate);
            push_arg(&mut args, "serve");
            let r = CommandLine {
                program: "nohup".to_string(),
                args,
                env: make_engine_env(search_path, port),
                quiet: true,
                no_window: false,
            };
            assert(r@.args =~= seq![candidate@, "serve"@]);
            r
        },
        LaunchStrategy::DetachedSpawn => {
            push_arg(&mut args, "serve");
            let r = CommandLine {
                program: candidate.to_string(),
                args,
                env: make_engine_env(search_path, port),
                quiet: true,
                no_window: false,
            };
            assert(r@.args =~= seq!["serve"@]);
            r
        },
        LaunchStrategy::ShellSpawn => {
            if platform == PlatformId::Windows {
                push_arg(&mut args, "/C");
                push_arg(&mut args, "start");
                push_arg(&mut args, "/B");
                push_arg(&mut args, candidate);
                push_arg(&mut args, "serve");
                let r = CommandLine {
                    program: "cmd".to_string(),
                    args,
                    env: make_engine_env(search_path, port),
                    quiet: false,
                    no_window: false,
                };
                assert(r@.args =~= seq!["/C"@, "start"@, "/B"@, candidate@, "serve"@]);
                r
            } else {
                let mut line = "export PATH=\"".to_string();
                line.append(search_path);
                line.append("\" && \"");
                line.append(candidate);
                line.append("\" serve &");
                push_arg(&mut args, "-c");
                push_arg(&mut args, line.as_str());
                let mut env = Vec::new();
                env.push(make_port_var(port));
                let r = CommandLine {
                    program: "bash".to_string(),
                    args,
                    env,
                    quiet: false,
                    no_window: false,
                };
                assert(r@.args =~= seq!["-c"@, shell_line(candidate@, search_path@)]);
                assert(r@.env =~= seq![port_var(port)]);
                r
            }
        },
        LaunchStrategy::ConsoleLauncher => {
            push_arg(&mut args, "serve");
            let r = CommandLine {
                program: candidate.to_string(),
                args,
                env: make_engine_env(search_path, port),
                quiet: false,
                no_window: true,
            };
            assert(r@.args =~= seq!["serve"@]);
            r
        },
    }
}

/// How one attempt ended.
#[derive(Debug)]
pub enum AttemptOutcome {
    /// The process was spawned.
    Started,
    /// The spawn failed; the text is the system's own message.
    SpawnFailed(String),
    /// The candidate is an absolute path that does not exist, so nothing was
    /// spawned.
    SkippedMissing,
}

pub enum AttemptOutcomeView {
    Started,
    SpawnFailed(Seq<char>),
    SkippedMissing,
}

impl View for AttemptOutcome {
    type V = AttemptOutcomeView;

    open spec fn view(&self) -> AttemptOutcomeView {
        match self {
            AttemptOutcome::Started => AttemptOutcomeView::Started,
            AttemptOutcome::SpawnFailed(error) => AttemptOutcomeView::SpawnFailed(error@),
            AttemptOutcome::SkippedMissing => AttemptOutcomeView::SkippedMissing,
        }
    }
}

/// One attempt of the chain: which strategy was tried on which candidate,
/// and how it ended.
#[derive(Debug)]
pub struct LaunchAttempt {
    pub strategy: LaunchStrategy,
    pub candidate: String,
    pub outcome: AttemptOutcome,
}

pub struct LaunchAttemptView {
    pub strategy: LaunchStrategy,
    pub candidate: Seq<char>,
    pub outcome: AttemptOutcomeView,
}

impl View for LaunchAttempt {
    type V = LaunchAttemptView;

    open spec fn view(&self) -> LaunchAttemptView {
        LaunchAttemptView {
            strategy: self.strategy,
            candidate: self.candidate@,
            outcome: self.outcome@,
        }
    }
}

impl AttemptOutcome {
    /// A copy of the outcome.
    pub fn duplicate(&self) -> (r: Self)
        ensures
            r@ == self@,
    {
        match self {
            AttemptOutcome::Started => AttemptOutcome::Started,
            AttemptOutcome::SpawnFailed(error) => AttemptOutcome::SpawnFailed(error.clone()),
            AttemptOutcome::SkippedMissing => AttemptOutcome::SkippedMissing,
        }
    }
}

impl LaunchAttempt {
    /// A copy of the attempt.
    pub fn duplicate(&self) -> (r: Self)
        ensures
            r@ == self@,
    {
        LaunchAttempt {
            strategy: self.strategy,
            candidate: self.candidate.clone(),
            outcome: self.outcome.duplicate(),
        }
    }
}

pub open spec fn attempts_view(v: Seq<LaunchAttempt>) -> Seq<LaunchAttemptView> {
    Seq::new(v.len(), |i: int| v[i]@)
}

/// A copy of the attempts.
pub fn copy_attempts(attempts: &Vec<LaunchAttempt>) -> (r: Vec<LaunchAttempt>)
    ensures
        attempts_view(r@) == attempts_view(attempts@),
{
    let mut r: Vec<LaunchAttempt> = Vec::new();
    let mut i: usize = 0;
    while i < attempts.len()
        invariant
            i <= attempts.len(),
            attempts_view(r@) == attempts_view(attempts@).take(i as int),
        decreases attempts.len() - i,
    {
        let ghost so_far = attempts_view(r@);
        let copy = attempts[i].duplicate();
        r.push(copy);
        assert(attempts_view(r@) =~= so_far.push(copy@));
        assert(so_far.push(copy@) =~= attempts_view(attempts@).take(i + 1));
        i += 1;
    }
    assert(attempts_view(attempts@).take(attempts.len() as int) == attempts_view(attempts@));
    r
}

/// The order of all attempts: for each of `count` candidates in turn, each
/// strategy in turn. An entry names the candidate by its index.
pub open spec fn plan_for(count: nat, order: Seq<LaunchStrategy>) -> Seq<(int, LaunchStrategy)>
    decreases count,
{
    if count == 0 {
        Seq::empty()
    } else {
        plan_for((count - 1) as nat, order) + Seq::new(
            order.len(),
            |j: int| ((count - 1) as int, order[j]),
        )
    }
}

/// The plan has one entry for each pair of a candidate and a strategy, and
/// names candidates that exist.
pub proof fn lemma_plan_for(count: nat, order: Seq<LaunchStrategy>)
    ensures
        plan_for(count, order).len() == count * order.len(),
        forall|k: int|
            0 <= k < plan_for(count, order).len() ==> 0 <= (#[trigger] plan_for(count, order)[k]).0
                < count,
    decreases count,
{
    if count > 0 {
        lemma_plan_for((count - 1) as nat, order);
        let head = plan_for((count - 1) as nat, order);
        let tail = Seq::new(order.len(), |j: int| ((count - 1) as int, order[j]));
        assert(plan_for(count, order) == head + tail);
        assert((count - 1) * order.len() + order.len() == count * order.len()) by (nonlinear_arith);
        assert forall|k: int| 0 <= k < plan_for(count, order).len() implies 0 <= (
        #[trigger] plan_for(count, order)[k]).0 < count by {
            if k >= head.len() {
                assert(plan_for(count, order)[k] == tail[k - head.len()]);
            } else {
                assert(plan_for(count, order)[k] == head[k]);
            }
        }
    } else {
        assert(0 * order.len() == 0) by (nonlinear_arith);
    }
}

/// What the chain knows and has done so far.
pub struct LaunchChainView {
    pub platform: PlatformId,
    pub candidates: Seq<CandidateView>,
    /// For each candidate, whether its path exists on disk.
    pub exists: Seq<bool>,
    pub search_path: Seq<char>,
    pub port: u16,
    /// The attempts made so far, in their order.
    pub attempts: Seq<LaunchAttemptView>,
    /// Whether the last attempt spawned the engine.
    pub started: bool,
}

impl LaunchChainView {
    /// The order of all attempts of this chain.
    pub open spec fn plan(self) -> Seq<(int, LaunchStrategy)> {
        plan_for(self.candidates.len(), strategies(self.platform))
    }

    /// Whether a candidate can be started: a bare name always, an absolute
    /// path where it exists.
    pub open spec fn usable(self, candidate: int) -> bool {
        usable(self.candidates, self.exists, candidate)
    }

    /// Whether the chain has ended: the engine was spawned, or nothing is
    /// left to try.
    pub open spec fn finished(self) -> bool {
        self.started || self.attempts.len() >= self.plan().len()
    }

    /// The record of the attempt at position `k` of the plan.
    pub open spec fn attempt_at(self, k: int, outcome: AttemptOutcomeView) -> LaunchAttemptView {
        LaunchAttemptView {
            strategy: self.plan()[k].1,
            candidate: self.candidates[self.plan()[k].0].path,
            outcome,
        }
    }

    pub open spec fn with_attempt(self, attempt: LaunchAttemptView) -> LaunchChainView {
        LaunchChainView { attempts: self.attempts.push(attempt), ..self }
    }

    /// The chain after it has passed over the attempts whose candidate does
    /// not exist, recording each as skipped.
    pub open spec fn skip_missing(self) -> LaunchChainView
        decreases self.plan().len() - self.attempts.len(),
    {
        let k = self.attempts.len() as int;
        if self.started || k >= self.plan().len() || self.usable(self.plan()[k].0) {
            self
        } else {
            self.with_attempt(self.attempt_at(k, AttemptOutcomeView::SkippedMissing)).skip_missing()
        }
    }

    /// The chain as it stands before the first spawn.
    pub open spec fn initial(
        platform: PlatformId,
        candidates: Seq<CandidateView>,
        exists: Seq<bool>,
        search_path: Seq<char>,
        port: u16,
    ) -> LaunchChainView {
        LaunchChainView {
            platform,
            candidates,
            exists,
            search_path,
            port,
            attempts: Seq::empty(),
            started: false,
        }.skip_missing()
    }

    /// What the caller is to do next.
    pub open spec fn pending(self) -> LaunchActionView {
        let k = self.attempts.len() as int;
        if self.started {
            LaunchActionView::Succeeded(self.attempts.last())
        } else if k >= self.plan().len() {
            LaunchActionView::Failed(self.attempts)
        } else {
            LaunchActionView::Spawn(
                launch_command(
                    self.platform,
                    self.plan()[k].1,
                    self.candidates[self.plan()[k].0].path,
                    self.search_path,
                    self.port,
                ),
            )
        }
    }

    /// The chain after the caller has reported how the pending spawn went.
    /// A chain that has ended takes no further report.
    pub open spec fn after(self, result: Result<(), Seq<char>>) -> LaunchChainView {
        let k = self.attempts.len() as int;
        if self.finished() {
            self
        } else {
            match result {
                Ok(_) => LaunchChainView {
                    started: true,
                    ..self.with_attempt(self.attempt_at(k, AttemptOutcomeView::Started))
                },
                Err(error) => self.with_attempt(
                    self.attempt_at(k, AttemptOutcomeView::SpawnFailed(error)),
                ).skip_missing(),
            }
        }
    }

    /// What holds of every chain that was made by `LaunchChain::new` and
    /// driven by `record`: the attempts follow the plan, one for each entry
    /// passed; an attempt was skipped exactly where its candidate cannot be
    /// used; only the last attempt can have spawned the engine; and unless
    /// the chain has ended, the next entry of the plan can be tried.
    pub open spec fn well_formed(self) -> bool {
        &&& self.attempts.len() <= self.plan().len()
        &&& forall|k: int|
            0 <= k < self.attempts.len() ==> {
                &&& (#[trigger] self.attempts[k]).strategy == self.plan()[k].1
                &&& self.attempts[k].candidate == self.candidates[self.plan()[k].0].path
                &&& (self.attempts[k].outcome is SkippedMissing <==> !self.usable(self.plan()[k].0))
                &&& (self.attempts[k].outcome is Started <==> self.started && k == self.attempts.len()
                    - 1)
            }
        &&& self.started ==> self.attempts.len() > 0
        &&& !self.finished() ==> self.usable(self.plan()[self.attempts.len() as int].0)
    }
}

/// What the caller of the chain is to do next.
pub enum LaunchAction {
    /// Spawn this command, do not wait for it, and report how the spawn
    /// went.
    Spawn(CommandLine),
    /// The engine was spawned by this attempt; the chain has ended.
    Succeeded(LaunchAttempt),
    /// Every attempt failed; the chain has ended. The error holds them all.
    Failed(AggregateLaunchError),
}

pub enum LaunchActionView {
    Spawn(CommandLineView),
    Succeeded(LaunchAttemptView),
    Failed(Seq<LaunchAttemptView>),
}

/// Every attempt of a chain that could not start the engine, in the order in
/// which they were made.
pub struct AggregateLaunchError {
    pub attempts: Vec<LaunchAttempt>,
}

impl View for AggregateLaunchError {
    type V = Seq<LaunchAttemptView>;

    open spec fn view(&self) -> Seq<LaunchAttemptView> {
        attempts_view(self.attempts@)
    }
}

impl View for LaunchAction {
    type V = LaunchActionView;

    open spec fn view(&self) -> LaunchActionView {
        match self {
            LaunchAction::Spawn(command) => LaunchActionView::Spawn(command@),
            LaunchAction::Succeeded(attempt) => LaunchActionView::Succeeded(attempt@),
            LaunchAction::Failed(error) => LaunchActionView::Failed(error@),
        }
    }
}

/// The chain of attempts to start the engine.
pub struct LaunchChain {
    platform: PlatformId,
    candidates: Vec<ExecutableCandidate>,
    exists: Vec<bool>,
    search_path: String,
    port: u16,
    plan: Vec<(usize, LaunchStrategy)>,
    attempts: Vec<LaunchAttempt>,
    started: bool,
}

pub open spec fn plan_view(plan: Seq<(usize, LaunchStrategy)>) -> Seq<(int, LaunchStrategy)> {
    Seq::new(plan.len(), |k: int| (plan[k].0 as int, plan[k].1))
}

impl View for LaunchChain {
    type V = LaunchChainView;

    closed spec fn view(&self) -> LaunchChainView {
        LaunchChainView {
            platform: self.platform,
            candidates: candidates_view(self.candidates@),
            exists: self.exists@,
            search_path: self.search_path@,
            port: self.port,
            attempts: attempts_view(self.attempts@),
            started: self.started,
        }
    }
}

/// The strategies of `platform`, in the order in which they are tried.
pub fn strategies_of(platform: PlatformId) -> (r: Vec<LaunchStrategy>)
    ensures
        r@ == strategies(platform),
{
    let mut r: Vec<LaunchStrategy> = Vec::new();
    r.push(LaunchStrategy::DaemonWrapper);
    r.push(LaunchStrategy::DetachedSpawn);
    r.push(LaunchStrategy::ShellSpawn);
    if platform == PlatformId::Windows {
        r.push(LaunchStrategy::ConsoleLauncher);
    }
    assert(r@ =~= strategies(platform));
    r
}

fn make_plan(count: usize, order: &Vec<LaunchStrategy>) -> (r: Vec<(usize, LaunchStrategy)>)
    ensures
        plan_view(r@) == plan_for(count as nat, order@),
{
    let mut plan: Vec<(usize, LaunchStrategy)> = Vec::new();
    let mut i: usize = 0;
    assert(plan_view(plan@) =~= plan_for(0, order@));
    while i < count
        invariant
            i <= count,
            plan_view(plan@) == plan_for(i as nat, order@),
        decreases count - i,
    {
        let mut j: usize = 0;
        let ghost before = plan_view(plan@);
        assert(plan_view(plan@) =~= before + Seq::new(0, |k: int| (i as int, order@[k])));
        while j < order.len()
            invariant
                j <= order.len(),
                i < count,
                plan_view(plan@) == before + Seq::new(j as nat, |k: int| (i as int, order@[k])),
            decreases order.len() - j,
        {
            let ghost so_far = plan_view(plan@);
            plan.push((i, order[j]));
            assert(plan_view(plan@) =~= so_far.push((i as int, order@[j as int])));
            assert(so_far.push((i as int, order@[j as int])) =~= before + Seq::new(
                (j + 1) as nat,
                |k: int| (i as int, order@[k]),
            ));
            j += 1;
        }
        i += 1;
    }
    plan
}

impl LaunchChain {
    /// What ties the chain's own bookkeeping to its view.
    pub closed spec fn inv(&self) -> bool {
        &&& plan_view(self.plan@) == self@.plan()
        &&& self@.well_formed()
    }

    /// A chain over `candidates`, of which `exists` says for each whether
    /// its path is on disk (a candidate without an answer counts as
    /// missing). `search_path` is the augmented search path and `port` the
    /// engine's port; both go into the environment of what is spawned.
    pub fn new(
        platform: PlatformId,
        candidates: Vec<ExecutableCandidate>,
        exists: Vec<bool>,
        search_path: String,
        port: u16,
    ) -> (r: LaunchChain)
        ensures
            r.inv(),
            r@ == LaunchChainView::initial(
                platform,
                candidates_view(candidates@),
                exists@,
                search_path@,
                port,
            ),
    {
        let order = strategies_of(platform);
        let plan = make_plan(candidates.len(), &order);
        let mut chain = LaunchChain {
            platform,
            candidates,
            exists,
            search_path,
            port,
            plan,
            attempts: Vec::new(),
            started: false,
        };
        proof {
            lemma_plan_for(chain@.candidates.len(), strategies(platform));
            assert(chain@.attempts =~= Seq::empty());
        }
        chain.pass_missing();
        chain
    }

    /// Passes over the attempts whose candidate does not exist.
    fn pass_missing(&mut self)
        requires
            plan_view(old(self).plan@) == old(self)@.plan(),
            old(self)@.attempts.len() <= old(self)@.plan().len(),
            forall|k: int|
                0 <= k < old(self)@.attempts.len() ==> {
                    &&& (#[trigger] old(self)@.attempts[k]).strategy == old(self)@.plan()[k].1
                    &&& old(self)@.attempts[k].candidate == old(self)@.candidates[old(
                        self,
                    )@.plan()[k].0].path
                    &&& (old(self)@.attempts[k].outcome is SkippedMissing <==> !old(self)@.usable(
                        old(self)@.plan()[k].0,
                    ))
                    &&& !(old(self)@.attempts[k].outcome is Started)
                },
            !old(self).started,
        ensures
            final(self)@ == old(self)@.skip_missing(),
            final(self).inv(),
    {
        proof {
            lemma_plan_for(self@.candidates.len(), strategies(self.platform));
        }
        while self.attempts.len() < self.plan.len() && !self.can_use(self.plan[self.attempts.len()].0)
            invariant
                plan_view(self.plan@) == self@.plan(),
                self@.plan() == old(self)@.plan(),
                self@.skip_missing() == old(self)@.skip_missing(),
                self@.attempts.len() <= self@.plan().len(),
                forall|k: int|
                    0 <= k < self@.plan().len() ==> 0 <= (#[trigger] self@.plan()[k]).0
                        < self@.candidates.len(),
                forall|k: int|
                    0 <= k < self@.attempts.len() ==> {
                        &&& (#[trigger] self@.attempts[k]).strategy == self@.plan()[k].1
                        &&& self@.attempts[k].candidate == self@.candidates[self@.plan()[k].0].path
                        &&& (self@.attempts[k].outcome is SkippedMissing <==> !self@.usable(
                            self@.plan()[k].0,
                        ))
                        &&& !(self@.attempts[k].outcome is Started)
                    },
                !self.started,
            decreases self.plan.len() - self.attempts.len(),
        {
            let k = self.attempts.len();
            let ghost before = self@;
            assert(plan_view(self.plan@)[k as int] == before.plan()[k as int]);
            let entry = self.plan[k];
            let attempt = LaunchAttempt {
                strategy: entry.1,
                candidate: self.candidates[entry.0].path.clone(),
                outcome: AttemptOutcome::SkippedMissing,
            };
            assert(attempt@ == before.attempt_at(k as int, AttemptOutcomeView::SkippedMissing));
            self.attempts.push(attempt);
            assert(self@ == before.with_attempt(attempt@)) by {
                assert(self@.attempts =~= before.attempts.push(attempt@));
            }
        }
        proof {
            let k = self.attempts.len() as int;
            if k < self@.plan().len() {
                assert(plan_view(self.plan@)[k] == self@.plan()[k]);
            }
        }
    }

    /// Whether the candidate at `index` can be started.
    fn can_use(&self, index: usize) -> (r: bool)
        ensures
            r == self@.usable(index as int),
    {
        if index >= self.candidates.len() {
            return false;
        }
        !self.candidates[index].is_absolute || (index < self.exists.len() && self.exists[index])
    }

    /// Whether the chain has ended.
    pub fn is_finished(&self) -> (r: bool)
        requires
            self.inv(),
        ensures
            r == self@.finished(),
    {
        self.started || self.attempts.len() >= self.plan.len()
    }

    /// What the caller is to do next: spawn a command, or take the chain's
    /// result.
    pub fn pending(&self) -> (r: LaunchAction)
        requires
            self.inv(),
        ensures
            r@ == self@.pending(),
    {
        let k = self.attempts.len();
        if self.started {
            LaunchAction::Succeeded(self.attempts[k - 1].duplicate())
        } else if k >= self.plan.len() {
            LaunchAction::Failed(AggregateLaunchError { attempts: copy_attempts(&self.attempts) })
        } else {
            proof {
                lemma_plan_for(self@.candidates.len(), strategies(self.platform));
                assert(plan_view(self.plan@)[k as int] == self@.plan()[k as int]);
            }
            let entry = self.plan[k];
            LaunchAction::Spawn(
                make_launch_command(
                    self.platform,
                    entry.1,
                    self.candidates[entry.0].path.as_str(),
                    self.search_path.as_str(),
                    self.port,
                ),
            )
        }
    }

    /// Takes the caller's report of how the pending spawn went: `Ok` where
    /// the process was spawned, else the system's message. The attempt is
    /// recorded with it. A success ends the chain; after a failure the
    /// chain moves on to the next attempt that can be made. A chain that
    /// has ended stays as it is.
    pub fn record(&mut self, result: Result<(), String>)
        requires
            old(self).inv(),
        ensures
            final(self).inv(),
            final(self)@ == old(self)@.after(
                match result {
                    Ok(_) => Ok(()),
                    Err(error) => Err(error@),
                },
            ),
    {
        if self.started || self.attempts.len() >= self.plan.len() {
            return ;
        }
        let k = self.attempts.len();
        let ghost before = self@;
        proof {
            lemma_plan_for(self@.candidates.len(), strategies(self.platform));
            assert(plan_view(self.plan@)[k as int] == before.plan()[k as int]);
        }
        let entry = self.plan[k];
        let candidate = self.candidates[entry.0].path.clone();
        match result {
            Ok(_) => {
                let attempt = LaunchAttempt {
                    strategy: entry.1,
                    candidate,
                    outcome: AttemptOutcome::Started,
                };
                self.attempts.push(attempt);
                self.started = true;
                assert(self@.attempts =~= before.attempts.push(
                    before.attempt_at(k as int, AttemptOutcomeView::Started),
                ));
            },
            Err(error) => {
                let attempt = LaunchAttempt {
                    strategy: entry.1,
                    candidate,
                    outcome: AttemptOutcome::SpawnFailed(error),
                };
                self.attempts.push(attempt);
                assert(self@.attempts =~= before.attempts.push(
                    before.attempt_at(k as int, AttemptOutcomeView::SpawnFailed(error@)),
                ));
                self.pass_missing();
            },
        }
    }
}

impl LaunchChain {
    /// A chain that was made by `new` and driven by `record` is
    /// well-formed.
    pub proof fn lemma_inv_is_well_formed(&self)
        requires
            self.inv(),
        ensures
            self@.well_formed(),
    {
    }
}

/// Passing over missing candidates keeps the attempts made so far, in
/// their places, and changes nothing but the attempts.
pub proof fn lemma_skip_missing_keeps(chain: LaunchChainView)
    ensures
        chain.skip_missing().attempts.len() >= chain.attempts.len(),
        chain.skip_missing().attempts.take(chain.attempts.len() as int) == chain.attempts,
        chain.skip_missing() == (LaunchChainView {
            attempts: chain.skip_missing().attempts,
            ..chain
        }),
    decreases chain.plan().len() - chain.attempts.len(),
{
    let k = chain.attempts.len() as int;
    if chain.started || k >= chain.plan().len() || chain.usable(chain.plan()[k].0) {
        assert(chain.attempts.take(k) == chain.attempts);
    } else {
        let next = chain.with_attempt(chain.attempt_at(k, AttemptOutcomeView::SkippedMissing));
        lemma_skip_missing_keeps(next);
        assert(next.skip_missing().attempts.take(k) == next.skip_missing().attempts.take(k + 1).take(
            k,
        ));
        assert(next.attempts.take(k) == chain.attempts);
    }
}

/// A spawn that is reported as done ends the chain at once: the attempt
/// that was pending is the chain's result, and the attempts before it are
/// kept.
pub proof fn lemma_first_spawn_ends_chain(chain: LaunchChainView)
    requires
        !chain.finished(),
    ensures
        chain.after(Ok(())).finished(),
        chain.after(Ok(())).pending() == LaunchActionView::Succeeded(
            chain.attempt_at(chain.attempts.len() as int, AttemptOutcomeView::Started),
        ),
        chain.after(Ok(())).attempts.drop_last() == chain.attempts,
{
    let after = chain.after(Ok(()));
    assert(after.attempts.drop_last() == chain.attempts);
}

/// A spawn that is reported as failed is recorded with the system's
/// message, behind the attempts made before it, which are kept.
pub proof fn lemma_failure_is_recorded(chain: LaunchChainView, error: Seq<char>)
    requires
        !chain.finished(),
    ensures
        chain.after(Err(error)).attempts.len() > chain.attempts.len(),
        chain.after(Err(error)).attempts.take(chain.attempts.len() as int) == chain.attempts,
        chain.after(Err(error)).attempts[chain.attempts.len() as int] == chain.attempt_at(
            chain.attempts.len() as int,
            AttemptOutcomeView::SpawnFailed(error),
        ),
        !chain.after(Err(error)).started,
{
    let k = chain.attempts.len() as int;
    let recorded = chain.with_attempt(chain.attempt_at(k, AttemptOutcomeView::SpawnFailed(error)));
    lemma_skip_missing_keeps(recorded);
    let after = recorded.skip_missing();
    assert(after.attempts.take(k + 1) == recorded.attempts);
    assert(after.attempts.take(k) == after.attempts.take(k + 1).take(k));
    assert(recorded.attempts.take(k) == chain.attempts);
    assert(after.attempts[k] == after.attempts.take(k + 1)[k]);
}

/// A chain that has failed holds one attempt for each pair of a candidate
/// and a strategy, in the order of the plan, and none of them spawned the
/// engine: the error that it hands out leaves no attempt out.
pub proof fn lemma_failure_holds_every_attempt(chain: LaunchChainView)
    requires
        chain.well_formed(),
        chain.pending() is Failed,
    ensures
        chain.pending() == LaunchActionView::Failed(chain.attempts),
        chain.attempts.len() == chain.candidates.len() * strategies(chain.platform).len(),
        forall|k: int|
            0 <= k < chain.attempts.len() ==> {
                &&& (#[trigger] chain.attempts[k]).strategy == chain.plan()[k].1
                &&& chain.attempts[k].candidate == chain.candidates[chain.plan()[k].0].path
                &&& !(chain.attempts[k].outcome is Started)
            },
{
    lemma_plan_for(chain.candidates.len(), strategies(chain.platform));
}

} // verus!
