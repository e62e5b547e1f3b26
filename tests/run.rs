use git2_hooks::backoff::NANOS_PER_MILLI;
use git2_hooks::hookspath::HookPaths;
use git2_hooks::outcome::{HookOutcome, HookOutput, HookResult};
use git2_hooks::run::{RunAction, RunEvent};

const MS: u64 = NANOS_PER_MILLI;

/// What a simulated hook process did.
struct Sim {
    /// Whether its process was started.
    spawned: bool,
    /// Whether its process was killed.
    killed: bool,
    /// The simulated time when the run finished.
    clock: u64,
}

/// Carries out a run against a simulated process that exits with `code` at
/// `exits_at` nanoseconds, each poll costing a microsecond.
fn simulate(paths: &HookPaths, mode: Option<u32>, timeout: u64, exits_at: u64, code: i32) -> (HookOutcome, Sim) {
    let mut run = paths.run_hook_with_timeout(mode, timeout);
    let mut sim = Sim { spawned: false, killed: false, clock: 0 };
    let mut event = RunEvent::Start;
    loop {
        match run.step(event) {
            RunAction::Spawn => {
                sim.spawned = true;
                event = RunEvent::Spawned;
            }
            RunAction::Wait => {
                sim.clock = sim.clock.max(exits_at);
                event = RunEvent::Exited(HookOutput { code: Some(code), stdout: vec![], stderr: vec![] });
            }
            RunAction::Poll => {
                sim.clock += 1_000;
                event = RunEvent::Polled { exited: sim.clock >= exits_at, elapsed: sim.clock };
            }
            RunAction::Sleep(d) => {
                sim.clock += d + 1_000;
                event = RunEvent::Polled { exited: sim.clock >= exits_at, elapsed: sim.clock };
            }
            RunAction::Kill => {
                sim.killed = true;
                event = RunEvent::Killed;
            }
            RunAction::Finish(o) => return (o, sim),
        }
    }
}

fn paths() -> HookPaths {
    HookPaths { git: "/r/.git".into(), hook: "/r/.git/hooks/pre-commit".into(), pwd: "/r".into() }
}

#[test]
fn slow_hook_is_killed_at_deadline() {
    let (o, sim) = simulate(&paths(), Some(0o755), 200 * MS, 1_000 * MS, 0);
    assert_eq!(o, HookOutcome::TimedOut { hook: "/r/.git/hooks/pre-commit".into() });
    assert!(sim.killed);
    assert!(sim.clock >= 200 * MS && sim.clock < 260 * MS);
    assert_eq!(HookResult::from(o), HookResult::TimedOut);
}

#[test]
fn hook_faster_than_deadline_succeeds() {
    let (o, sim) = simulate(&paths(), Some(0o755), 150 * MS, 100 * MS, 0);
    assert_eq!(HookResult::from(o), HookResult::Success);
    assert!(!sim.killed);
    assert!(sim.clock < 150 * MS);
}

#[test]
fn zero_deadline_waits_for_slow_hook() {
    let (o, sim) = simulate(&paths(), Some(0o755), 0, 1_000 * MS, 0);
    assert_eq!(HookResult::from(o), HookResult::Success);
    assert!(!sim.killed);
    assert_eq!(sim.clock, 1_000 * MS);
    let mut run = paths().run_hook(Some(0o755));
    assert_eq!(run.step(RunEvent::Start), RunAction::Spawn);
    assert_eq!(run.step(RunEvent::Spawned), RunAction::Wait);
}

#[test]
fn missing_hook_finishes_without_spawning() {
    let (o, sim) = simulate(&paths(), None, 200 * MS, 0, 1);
    assert_eq!(o, HookOutcome::NoHookFound);
    assert!(!sim.spawned);
    let (o, sim) = simulate(&paths(), Some(0o644), 0, 0, 1);
    assert_eq!(o, HookOutcome::NoHookFound);
    assert!(!sim.spawned);
    assert_eq!(HookResult::from(o), HookResult::Success);
}

#[test]
fn failing_hook_within_deadline_reports_failure() {
    let (o, sim) = simulate(&paths(), Some(0o700), 200 * MS, 3 * MS, 1);
    assert!(matches!(o, HookOutcome::RunNotSuccessful { code: Some(1), .. }));
    assert!(!sim.killed);
}

#[test]
fn configured_missing_hook_is_success() {
    let p = HookPaths::new("/r/.git", None, Some("/nowhere"), None, "pre-commit", &[]).unwrap();
    assert_eq!(p.hook, "/nowhere/pre-commit");
    let (o, sim) = simulate(&p, None, 0, 0, 0);
    assert_eq!(HookResult::from(o), HookResult::Success);
    assert!(!sim.spawned);
}
