//! One run of a hook as a sequence of decisions. The caller performs each
//! action (start the process, wait, poll, pause, kill) and reports what came
//! of it; the run decides what to do next and, at the end, the outcome.

use vstd::prelude::*;

use crate::backoff::{poll_decision, Backoff, PollDecision};
use crate::hookspath::{
    candidate_paths, configured_dir, first_existing_at, hook_found, resolved_hook, HookPaths,
    DEFAULT_HOOKS_PATH,
};
use crate::outcome::{classifies, hook_result_from_output, seen_as_success, HookOutcome, HookOutput};
use crate::paths::path_join;

verus! {

/// What the caller reports to a run.
#[derive(Debug, Clone, PartialEq, Eq)]
pub enum RunEvent {
    /// The run begins.
    Start,
    /// The hook's process was started.
    Spawned,
    /// The process was polled: whether it has exited, and the nanoseconds
    /// gone since polling began.
    Polled { exited: bool, elapsed: u64 },
    /// The process was waited for and ended so.
    Exited(HookOutput),
    /// The process was killed.
    Killed,
}

/// What a run asks the caller to do next.
#[derive(Debug, Clone, PartialEq, Eq)]
pub enum RunAction {
    /// Start the hook's process, then report `Spawned`.
    Spawn,
    /// Wait for the process to exit and collect its output, then report `Exited`.
    Wait,
    /// Check without blocking whether the process has exited, then report `Polled`.
    Poll,
    /// Pause for this many nanoseconds, then poll and report `Polled`.
    Sleep(u64),
    /// Kill the process, then report `Killed`.
    Kill,
    /// The run is over with this outcome.
    Finish(HookOutcome),
}

/// The state of one run: the hook, whether its file was found, and the
/// polling state of its deadline. A deadline of zero means none.
#[derive(Debug, Clone, PartialEq, Eq)]
pub struct HookRun {
    pub hook: String,
    pub found: bool,
    pub backoff: Backoff,
}

/// The first action of a run: start the hook if there is one, else finish.
pub open spec fn start_decision(found: bool) -> RunAction {
    if found {
        RunAction::Spawn
    } else {
        RunAction::Finish(HookOutcome::NoHookFound)
    }
}

/// The action once the process runs: wait for it when there is no deadline,
/// else start polling.
pub open spec fn spawned_decision(timeout: u64) -> RunAction {
    if timeout == 0 {
        RunAction::Wait
    } else {
        RunAction::Poll
    }
}

/// The action after a poll: collect an exited process, kill one past its
/// deadline, else pause.
pub open spec fn polled_decision(attempt: nat, exited: bool, elapsed: nat, timeout: nat) -> RunAction {
    match poll_decision(attempt, exited, elapsed, timeout) {
        PollDecision::Complete => RunAction::Wait,
        PollDecision::TimedOut => RunAction::Kill,
        PollDecision::Sleep(d) => RunAction::Sleep(d),
    }
}

impl HookPaths {
    /// A run of this hook that waits for it without a deadline; `mode` holds
    /// the permission bits of the file at `self.hook`, or nothing when no file
    /// is there.
    pub fn run_hook(&self, mode: Option<u32>) -> (r: HookRun)
        ensures
            r.hook == self.hook,
            r.found == hook_found(mode),
            r.backoff == Backoff::new_spec(0),
    {
        self.run_hook_with_timeout(mode, 0)
    }

    /// A run of this hook that kills it once `timeout` nanoseconds have gone
    /// by, or waits without a deadline when `timeout` is zero; `mode` as for
    /// `run_hook`.
    pub fn run_hook_with_timeout(&self, mode: Option<u32>, timeout: u64) -> (r: HookRun)
        ensures
            r.hook == self.hook,
            r.found == hook_found(mode),
            r.backoff == Backoff::new_spec(timeout),
    {
        HookRun { hook: self.hook.clone(), found: self.found(mode), backoff: Backoff::new(timeout) }
    }
}

impl HookRun {
    /// Takes in what the caller reports and decides what comes next.
    pub fn step(&mut self, event: RunEvent) -> (r: RunAction)
        ensures
            final(self).hook == old(self).hook,
            final(self).found == old(self).found,
            final(self).backoff.timeout == old(self).backoff.timeout,
            !(event is Polled) ==> final(self).backoff == old(self).backoff,
            match event {
                RunEvent::Start => r == start_decision(old(self).found),
                RunEvent::Spawned => r == spawned_decision(old(self).backoff.timeout),
                RunEvent::Polled { exited, elapsed } => {
                    &&& r == polled_decision(
                        old(self).backoff.attempt as nat,
                        exited,
                        elapsed as nat,
                        old(self).backoff.timeout as nat,
                    )
                    &&& final(self).backoff.attempt == if r is Sleep && old(self).backoff.attempt
                        < u64::MAX {
                        old(self).backoff.attempt + 1
                    } else {
                        old(self).backoff.attempt as int
                    }
                },
                RunEvent::Exited(output) => r matches RunAction::Finish(o) && classifies(
                    o,
                    old(self).hook,
                    output,
                ),
                RunEvent::Killed => r == RunAction::Finish(
                    HookOutcome::TimedOut { hook: old(self).hook },
                ),
            },
    {
        match event {
            RunEvent::Start => {
                if self.found {
                    RunAction::Spawn
                } else {
                    RunAction::Finish(HookOutcome::NoHookFound)
                }
            },
            RunEvent::Spawned => {
                if self.backoff.timeout == 0 {
                    RunAction::Wait
                } else {
                    RunAction::Poll
                }
            },
            RunEvent::Polled { exited, elapsed } => {
                match self.backoff.next(exited, elapsed) {
                    PollDecision::Complete => RunAction::Wait,
                    PollDecision::TimedOut => RunAction::Kill,
                    PollDecision::Sleep(d) => RunAction::Sleep(d),
                }
            },
            RunEvent::Exited(output) => {
                RunAction::Finish(hook_result_from_output(self.hook.clone(), &output))
            },
            RunEvent::Killed => RunAction::Finish(HookOutcome::TimedOut { hook: self.hook.clone() }),
        }
    }
}

/// A configured hooks directory is used as it is, whatever exists on disk:
/// resolution never falls back to the search. When no executable file is
/// there, the run finishes at its first step without starting a process, and
/// callers see a success.
pub proof fn lemma_configured_missing_hook_succeeds(
    git: Seq<char>,
    config_hooks_path: &str,
    other_paths: Option<&[&str]>,
    hook: Seq<char>,
    existing: Seq<bool>,
    mode: Option<u32>,
)
    requires
        config_hooks_path@.len() > 0,
        !hook_found(mode),
    ensures
        resolved_hook(git, Some(config_hooks_path), other_paths, hook, existing) == path_join(
            config_hooks_path@,
            hook,
        ),
        start_decision(hook_found(mode)) == RunAction::Finish(HookOutcome::NoHookFound),
        seen_as_success(HookOutcome::NoHookFound),
{
}

/// With no hooks path configured and no hook file anywhere, the hook resolves
/// to its place in the default hooks directory of the git directory, and the
/// run finishes at its first step without starting a process, which callers
/// see as a success.
pub proof fn lemma_unconfigured_missing_hook_succeeds(
    git: Seq<char>,
    config_hooks_path: Option<&str>,
    other_paths: Option<&[&str]>,
    hook: Seq<char>,
    existing: Seq<bool>,
    mode: Option<u32>,
)
    requires
        configured_dir(config_hooks_path) is None,
        forall|i: int| 0 <= i < existing.len() ==> !#[trigger] existing[i],
        !hook_found(mode),
    ensures
        resolved_hook(git, config_hooks_path, other_paths, hook, existing) == path_join(
            path_join(git, DEFAULT_HOOKS_PATH@),
            hook,
        ),
        start_decision(hook_found(mode)) == RunAction::Finish(HookOutcome::NoHookFound),
        seen_as_success(HookOutcome::NoHookFound),
{
    let cands = candidate_paths(git, other_paths, hook);
    assert(!exists|i: int| first_existing_at(existing, cands.len(), i));
}

/// A run ends timed out only when the caller reports the process killed, and
/// it asks for the kill only at a poll that finds the process still running
/// past its deadline; a process found exited is collected and classified.
pub proof fn lemma_timeout_only_by_kill(
    found: bool,
    timeout: u64,
    attempt: nat,
    exited: bool,
    elapsed: nat,
    hook: String,
    output: HookOutput,
    o: HookOutcome,
)
    requires
        classifies(o, hook, output),
    ensures
        !(start_decision(found) matches RunAction::Finish(t) && t is TimedOut),
        !(spawned_decision(timeout) is Finish),
        !(polled_decision(attempt, exited, elapsed, timeout as nat) is Finish),
        polled_decision(attempt, exited, elapsed, timeout as nat) is Kill <==> !exited && elapsed
            > timeout,
        exited ==> polled_decision(attempt, exited, elapsed, timeout as nat) == RunAction::Wait,
        !(o is TimedOut),
{
}

/// A deadline of zero is no deadline: once the process runs it is waited
/// for, and the outcome a finished wait leads to is never a timeout.
pub proof fn lemma_zero_timeout_never_times_out(hook: String, output: HookOutput, o: HookOutcome)
    requires
        classifies(o, hook, output),
    ensures
        spawned_decision(0) == RunAction::Wait,
        !(o is TimedOut),
{
}

} // verus!
