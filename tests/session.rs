use cpu_gauges::session::{Action, Controller, Failure, Outcome, Phase, TermOp};
use cpu_gauges::session::Outcome::{Done, Failed, Quit};

const RELEASE: [TermOp; 5] = [
    TermOp::MoveCursorHome,
    TermOp::ClearScreen,
    TermOp::LeaveAlternateScreen,
    TermOp::ShowCursor,
    TermOp::DisableRawMode,
];

/// Runs a controller against a fake terminal that answers each action with
/// the next scripted outcome (`Done` once the script runs out) and records
/// every action in order.
fn run(script: &[Outcome]) -> (Vec<Action>, Option<Failure>, Vec<Phase>) {
    let mut c = Controller::new();
    let mut log = Vec::new();
    let mut phases = Vec::new();
    let mut k = 0;
    loop {
        let a = c.next_action();
        if let Action::Exit(f) = a {
            return (log, f, phases);
        }
        log.push(a);
        let o = if k < script.len() { script[k] } else { Outcome::Done };
        k += 1;
        c.advance(o);
        phases.push(c.phase());
        assert!(k < 1000);
    }
}

fn count(log: &[Action], op: TermOp) -> usize {
    log.iter().filter(|a| **a == Action::Terminal(op)).count()
}

fn ends_with_release(log: &[Action]) -> bool {
    let n = log.len();
    n >= 5 && (0..5).all(|i| log[n - 5 + i] == Action::Terminal(RELEASE[i]))
}

#[test]
fn quit_during_poll_releases_once_and_succeeds() {
    let script = [Done, Done, Done, Done, Done, Done, Done, Quit];
    let (log, exit, phases) = run(&script);
    assert_eq!(phases[7], Phase::Terminating);
    assert_eq!(exit, None);
    assert_eq!(count(&log, TermOp::MoveCursorHome), 1);
    assert_eq!(count(&log, TermOp::EnterAlternateScreen), 1);
    assert!(ends_with_release(&log));
    assert_eq!(
        &log[..8],
        &[
            Action::Terminal(TermOp::EnterAlternateScreen),
            Action::Terminal(TermOp::HideCursor),
            Action::Terminal(TermOp::ClearScreen),
            Action::Terminal(TermOp::EnableRawMode),
            Action::Poll,
            Action::Sample,
            Action::Draw,
            Action::Poll,
        ]
    );
    assert_eq!(log.len(), 13);
}

#[test]
fn failed_sample_releases_once_and_fails() {
    let script = [Done, Done, Done, Done, Done, Failed];
    let (log, exit, _) = run(&script);
    assert_eq!(exit, Some(Failure::Provider));
    assert_eq!(count(&log, TermOp::MoveCursorHome), 1);
    assert!(ends_with_release(&log));
    assert_eq!(log.iter().filter(|a| **a == Action::Draw).count(), 0);
}

#[test]
fn failed_setup_step_still_releases() {
    let script = [Done, Failed];
    let (log, exit, _) = run(&script);
    assert_eq!(exit, Some(Failure::Terminal));
    assert_eq!(log.len(), 7);
    assert_eq!(count(&log, TermOp::EnableRawMode), 0);
    assert_eq!(count(&log, TermOp::MoveCursorHome), 1);
    assert!(ends_with_release(&log));
}

#[test]
fn failed_draw_releases_once_and_fails() {
    let script = [Done, Done, Done, Done, Done, Done, Failed];
    let (log, exit, _) = run(&script);
    assert_eq!(exit, Some(Failure::Terminal));
    assert_eq!(count(&log, TermOp::MoveCursorHome), 1);
    assert!(ends_with_release(&log));
}

#[test]
fn every_release_step_runs_after_a_failure() {
    let script = [Done, Done, Done, Done, Quit, Failed, Failed, Done, Failed, Done];
    let (log, exit, _) = run(&script);
    assert_eq!(exit, Some(Failure::Terminal));
    assert_eq!(log.len(), 10);
    assert!(ends_with_release(&log));
}

#[test]
fn finished_run_stays_finished() {
    let mut c = Controller::new();
    c.advance(Outcome::Failed);
    for _ in 0..5 {
        c.advance(Outcome::Done);
    }
    assert_eq!(c.phase(), Phase::Finished);
    c.advance(Outcome::Done);
    assert_eq!(c.phase(), Phase::Finished);
    assert_eq!(c.next_action(), Action::Exit(Some(Failure::Terminal)));
}

#[test]
fn quit_reported_outside_a_poll_counts_as_done() {
    let script = [Done, Done, Done, Done, Done, Quit];
    let mut c = Controller::new();
    for o in script {
        c.advance(o);
    }
    assert_eq!(c.phase(), Phase::Running);
    assert_eq!(c.next_action(), Action::Draw);
}
