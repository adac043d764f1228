//! The terminal session and the render loop as one state machine.
//!
//! The program asks `next_action`, performs it, and reports how it went
//! with `advance`. Setting up the terminal enters the alternate screen,
//! hides the cursor, clears the screen and enables raw input, stopping at
//! the first step that fails. Restoring it moves the cursor home, clears
//! the screen, leaves the alternate screen, shows the cursor and disables
//! raw input, and attempts every step whatever the earlier ones did. Once
//! set-up has begun, restoring runs exactly once before the program exits:
//! after a quit key, after a failed sample, and after a failed terminal
//! step alike. A failed sample ends the run: no stale readings are drawn.
use vstd::prelude::*;

verus! {

/// The number of operations that set up the terminal.
pub const ACQUIRE_STEPS: usize = 4;

/// The number of operations that restore the terminal.
pub const RELEASE_STEPS: usize = 5;

/// The number of actions in one tick of a running loop: poll, sample, draw.
pub const RUNNING_STEPS: usize = 3;

/// One operation on the terminal.
#[derive(Clone, Copy, Debug, PartialEq, Eq, Structural)]
pub enum TermOp {
    EnterAlternateScreen,
    HideCursor,
    ClearScreen,
    EnableRawMode,
    MoveCursorHome,
    LeaveAlternateScreen,
    ShowCursor,
    DisableRawMode,
}

/// Why a run ended early.
#[derive(Clone, Copy, Debug, PartialEq, Eq, Structural)]
pub enum Failure {
    /// A terminal operation, an input poll or a draw failed.
    Terminal,
    /// The load sampler failed.
    Provider,
}

/// What the program is to do next.
#[derive(Clone, Copy, Debug, PartialEq, Eq, Structural)]
pub enum Action {
    /// Perform a terminal operation.
    Terminal(TermOp),
    /// Wait, up to the poll timeout, for a key.
    Poll,
    /// Take a fresh sample of the loads.
    Sample,
    /// Draw one full frame from the latest sample.
    Draw,
    /// End the program: successfully where no failure is given.
    Exit(Option<Failure>),
}

/// How the last action went.
#[derive(Clone, Copy, Debug, PartialEq, Eq, Structural)]
pub enum Outcome {
    /// It completed; for a poll, no quit key came.
    Done,
    /// A poll saw the quit key. Reported for any other action, it counts as
    /// `Done`.
    Quit,
    /// It failed.
    Failed,
}

/// The stage that the run is in.
#[derive(Clone, Copy, Debug, PartialEq, Eq, Structural)]
pub enum Phase {
    /// Setting up the terminal.
    Acquiring,
    /// Polling, sampling and drawing in turn.
    Running,
    /// Restoring the terminal.
    Terminating,
    /// The terminal is restored; the program exits.
    Finished,
}

/// The state of a run.
pub struct Controller {
    phase: Phase,
    step: usize,
    failure: Option<Failure>,
    log: Ghost<Seq<Action>>,
}

/// The content of a `Controller`: its stage, the step within it, the first
/// failure, and every action performed so far.
pub struct ControllerView {
    pub phase: Phase,
    pub step: nat,
    pub failure: Option<Failure>,
    pub log: Seq<Action>,
}

impl View for Controller {
    type V = ControllerView;

    closed spec fn view(&self) -> ControllerView {
        ControllerView {
            phase: self.phase,
            step: self.step as nat,
            failure: self.failure,
            log: self.log@,
        }
    }
}

/// The operations that set up the terminal, in order.
pub open spec fn acquire_ops() -> Seq<TermOp> {
    seq![
        TermOp::EnterAlternateScreen,
        TermOp::HideCursor,
        TermOp::ClearScreen,
        TermOp::EnableRawMode,
    ]
}

/// The operations that restore the terminal, in order.
pub open spec fn release_ops() -> Seq<TermOp> {
    seq![
        TermOp::MoveCursorHome,
        TermOp::ClearScreen,
        TermOp::LeaveAlternateScreen,
        TermOp::ShowCursor,
        TermOp::DisableRawMode,
    ]
}

/// The restoring operations as actions.
pub open spec fn release_actions() -> Seq<Action> {
    release_ops().map_values(|op: TermOp| Action::Terminal(op))
}

/// The action that a run in stage `phase`, at `step`, asks for.
pub open spec fn action_of(phase: Phase, step: nat, failure: Option<Failure>) -> Action {
    match phase {
        Phase::Acquiring => Action::Terminal(acquire_ops()[step as int]),
        Phase::Running => if step == 0 {
            Action::Poll
        } else if step == 1 {
            Action::Sample
        } else {
            Action::Draw
        },
        Phase::Terminating => Action::Terminal(release_ops()[step as int]),
        Phase::Finished => Action::Exit(failure),
    }
}

/// The stage, step and first failure after an action at `phase`, `step`
/// went as `outcome` says.
pub open spec fn next_state(phase: Phase, step: nat, failure: Option<Failure>, outcome: Outcome) -> (
    Phase,
    nat,
    Option<Failure>,
) {
    match phase {
        Phase::Acquiring => if outcome == Outcome::Failed {
            (Phase::Terminating, 0, Some(Failure::Terminal))
        } else if step + 1 == acquire_ops().len() {
            (Phase::Running, 0, None)
        } else {
            (Phase::Acquiring, step + 1, None)
        },
        Phase::Running => if outcome == Outcome::Failed {
            (
                Phase::Terminating,
                0,
                Some(
                    if step == 1 {
                        Failure::Provider
                    } else {
                        Failure::Terminal
                    },
                ),
            )
        } else if outcome == Outcome::Quit && step == 0 {
            (Phase::Terminating, 0, None)
        } else {
            (Phase::Running, (step + 1) % (RUNNING_STEPS as nat), None)
        },
        Phase::Terminating => {
            let f = if failure is None && outcome == Outcome::Failed {
                Some(Failure::Terminal)
            } else {
                failure
            };
            if step + 1 == release_ops().len() {
                (Phase::Finished, 0, f)
            } else {
                (Phase::Terminating, step + 1, f)
            }
        },
        Phase::Finished => (phase, step, failure),
    }
}

/// The stage, step and first failure after actions that went as
/// `outcomes` say, one after another, from `phase`, `step`.
pub open spec fn run_from(
    phase: Phase,
    step: nat,
    failure: Option<Failure>,
    outcomes: Seq<Outcome>,
) -> (Phase, nat, Option<Failure>)
    decreases outcomes.len(),
{
    if outcomes.len() == 0 {
        (phase, step, failure)
    } else {
        let next = next_state(phase, step, failure, outcomes[0]);
        run_from(next.0, next.1, next.2, outcomes.subrange(1, outcomes.len() as int))
    }
}

/// Once restoring the terminal has begun, the remaining restoring steps
/// finish the run whatever each of them reports, and a failure seen before
/// is kept for the exit.
pub proof fn lemma_restoring_always_finishes(
    step: nat,
    failure: Option<Failure>,
    outcomes: Seq<Outcome>,
)
    requires
        step < release_ops().len(),
        outcomes.len() == release_ops().len() - step,
    ensures
        run_from(Phase::Terminating, step, failure, outcomes).0 == Phase::Finished,
        failure is Some ==> run_from(Phase::Terminating, step, failure, outcomes).2 == failure,
    decreases outcomes.len(),
{
    let next = next_state(Phase::Terminating, step, failure, outcomes[0]);
    let rest = outcomes.subrange(1, outcomes.len() as int);
    assert(run_from(Phase::Terminating, step, failure, outcomes) == run_from(
        next.0,
        next.1,
        next.2,
        rest,
    ));
    if step + 1 < release_ops().len() {
        lemma_restoring_always_finishes(step + 1, next.2, rest);
    } else {
        assert(run_from(next.0, next.1, next.2, rest) == next);
    }
}

/// How many times `a` occurs in `s`.
pub open spec fn count_of(s: Seq<Action>, a: Action) -> nat
    decreases s.len(),
{
    if s.len() == 0 {
        0
    } else {
        count_of(s.drop_last(), a) + if s.last() == a {
            1nat
        } else {
            0nat
        }
    }
}

/// The action that begins setting up the terminal.
pub open spec fn acquire_start() -> Action {
    Action::Terminal(TermOp::EnterAlternateScreen)
}

/// The action that begins restoring the terminal.
pub open spec fn release_start() -> Action {
    Action::Terminal(TermOp::MoveCursorHome)
}

proof fn lemma_count_push(s: Seq<Action>, a: Action, x: Action)
    ensures
        count_of(s.push(a), x) == count_of(s, x) + if a == x {
            1nat
        } else {
            0nat
        },
{
    assert(s.push(a).drop_last() =~= s);
}

fn acquire_op(step: usize) -> (r: TermOp)
    requires
        step < acquire_ops().len(),
    ensures
        r == acquire_ops()[step as int],
{
    if step == 0 {
        TermOp::EnterAlternateScreen
    } else if step == 1 {
        TermOp::HideCursor
    } else if step == 2 {
        TermOp::ClearScreen
    } else {
        TermOp::EnableRawMode
    }
}

fn release_op(step: usize) -> (r: TermOp)
    requires
        step < release_ops().len(),
    ensures
        r == release_ops()[step as int],
{
    if step == 0 {
        TermOp::MoveCursorHome
    } else if step == 1 {
        TermOp::ClearScreen
    } else if step == 2 {
        TermOp::LeaveAlternateScreen
    } else if step == 3 {
        TermOp::ShowCursor
    } else {
        TermOp::DisableRawMode
    }
}

impl Controller {
    /// The run's state is consistent with the actions performed so far.
    pub closed spec fn wf(&self) -> bool {
        let log = self.log@;
        match self.phase {
            Phase::Acquiring => {
                &&& self.step < acquire_ops().len()
                &&& self.failure is None
                &&& log =~= acquire_ops().take(self.step as int).map_values(
                    |op: TermOp| Action::Terminal(op),
                )
            },
            Phase::Running => {
                &&& self.step < RUNNING_STEPS
                &&& self.failure is None
                &&& count_of(log, acquire_start()) == 1
                &&& count_of(log, release_start()) == 0
            },
            Phase::Terminating => {
                &&& self.step < release_ops().len()
                &&& log.len() >= self.step
                &&& count_of(log, acquire_start()) == 1
                &&& count_of(log, release_start()) == if self.step == 0 {
                    0nat
                } else {
                    1nat
                }
                &&& log.subrange(log.len() - self.step, log.len() as int) =~= release_actions().take(
                    self.step as int,
                )
            },
            Phase::Finished => {
                &&& self.step == 0
                &&& log.len() >= release_ops().len()
                &&& count_of(log, acquire_start()) == 1
                &&& count_of(log, release_start()) == 1
                &&& log.subrange(log.len() - release_ops().len(), log.len() as int)
                    =~= release_actions()
            },
        }
    }

    /// Once a run asks to exit, the terminal was set up once and restored
    /// once, and the last actions performed were every restoring operation,
    /// in order: on each path to the exit, whether a quit key, a failed
    /// sample or a failed terminal operation ended the run.
    pub proof fn lemma_restored_once_at_exit(&self)
        requires
            self.wf(),
            action_of(self@.phase, self@.step, self@.failure) is Exit,
        ensures
            count_of(self@.log, acquire_start()) == 1,
            count_of(self@.log, release_start()) == 1,
            self@.log.len() >= release_ops().len(),
            self@.log.subrange(self@.log.len() - release_ops().len(), self@.log.len() as int)
                == release_actions(),
    {
    }

    /// A run that has done nothing yet.
    pub fn new() -> (r: Controller)
        ensures
            r.wf(),
            r@.phase == Phase::Acquiring,
            r@.step == 0,
            r@.failure is None,
            r@.log.len() == 0,
    {
        Controller { phase: Phase::Acquiring, step: 0, failure: None, log: Ghost(Seq::empty()) }
    }

    /// The action that the run asks for now.
    pub fn next_action(&self) -> (r: Action)
        requires
            self.wf(),
        ensures
            r == action_of(self@.phase, self@.step, self@.failure),
    {
        match self.phase {
            Phase::Acquiring => Action::Terminal(acquire_op(self.step)),
            Phase::Running => if self.step == 0 {
                Action::Poll
            } else if self.step == 1 {
                Action::Sample
            } else {
                Action::Draw
            },
            Phase::Terminating => Action::Terminal(release_op(self.step)),
            Phase::Finished => Action::Exit(self.failure),
        }
    }

    /// The stage that the run is in.
    pub fn phase(&self) -> (r: Phase)
        ensures
            r == self@.phase,
    {
        self.phase
    }

    /// Records how the action that `next_action` asked for went, and moves
    /// on. Once the run is finished nothing changes.
    pub fn advance(&mut self, outcome: Outcome)
        requires
            old(self).wf(),
        ensures
            final(self).wf(),
            (final(self)@.phase, final(self)@.step, final(self)@.failure) == next_state(
                old(self)@.phase,
                old(self)@.step,
                old(self)@.failure,
                outcome,
            ),
            old(self)@.phase != Phase::Finished ==> final(self)@.log == old(self)@.log.push(
                action_of(old(self)@.phase, old(self)@.step, old(self)@.failure),
            ),
            old(self)@.phase == Phase::Finished ==> final(self)@.log == old(self)@.log,
    {
        let ghost old_log = self.log@;
        let ghost done = action_of(self@.phase, self@.step, self@.failure);
        proof {
            lemma_count_push(old_log, done, acquire_start());
            lemma_count_push(old_log, done, release_start());
        }
        match self.phase {
            Phase::Acquiring => {
                proof {
                    let prefix = acquire_ops().take(self.step as int).map_values(
                        |op: TermOp| Action::Terminal(op),
                    );
                    assert(old_log =~= prefix);
                    lemma_no_release_in_acquire(self.step as int);
                    lemma_acquire_prefix_counts(self.step as int);
                    assert(old_log.push(done) =~= acquire_ops().take(self.step + 1).map_values(
                        |op: TermOp| Action::Terminal(op),
                    ));
                }
                self.log = Ghost(self.log@.push(done));
                if let Outcome::Failed = outcome {
                    self.phase = Phase::Terminating;
                    self.step = 0;
                    self.failure = Some(Failure::Terminal);
                } else if self.step + 1 == ACQUIRE_STEPS {
                    self.phase = Phase::Running;
                    self.step = 0;
                } else {
                    self.step = self.step + 1;
                }
            },
            Phase::Running => {
                self.log = Ghost(self.log@.push(done));
                if let Outcome::Failed = outcome {
                    self.failure = Some(
                        if self.step == 1 {
                            Failure::Provider
                        } else {
                            Failure::Terminal
                        },
                    );
                    self.phase = Phase::Terminating;
                    self.step = 0;
                } else if outcome == Outcome::Quit && self.step == 0 {
                    self.phase = Phase::Terminating;
                    self.step = 0;
                } else {
                    self.step = (self.step + 1) % RUNNING_STEPS;
                }
            },
            Phase::Terminating => {
                proof {
                    let n = self.step as int;
                    let l = old_log.push(done);
                    assert(l.subrange(l.len() - (n + 1), l.len() as int) =~= release_actions().take(
                        n + 1,
                    )) by {
                        assert(l.subrange(l.len() - (n + 1), l.len() - 1) =~= old_log.subrange(
                            old_log.len() - n,
                            old_log.len() as int,
                        ));
                    }
                    assert(release_actions().take(5) =~= release_actions());
                    if n > 0 {
                        assert(done != release_start());
                    }
                }
                self.log = Ghost(self.log@.push(done));
                if outcome == Outcome::Failed && self.failure.is_none() {
                    self.failure = Some(Failure::Terminal);
                }
                if self.step + 1 == RELEASE_STEPS {
                    self.phase = Phase::Finished;
                    self.step = 0;
                } else {
                    self.step = self.step + 1;
                }
            },
            Phase::Finished => {},
        }
    }
}

proof fn lemma_no_release_in_acquire(n: int)
    requires
        0 <= n <= 4,
    ensures
        count_of(acquire_ops().take(n).map_values(|op: TermOp| Action::Terminal(op)), release_start())
            == 0,
    decreases n,
{
    let s = acquire_ops().take(n).map_values(|op: TermOp| Action::Terminal(op));
    if n > 0 {
        assert(s.drop_last() =~= acquire_ops().take(n - 1).map_values(
            |op: TermOp| Action::Terminal(op),
        ));
        lemma_no_release_in_acquire(n - 1);
    }
}

proof fn lemma_acquire_prefix_counts(n: int)
    requires
        0 <= n <= 4,
    ensures
        count_of(acquire_ops().take(n).map_values(|op: TermOp| Action::Terminal(op)), acquire_start())
            == if n == 0 {
            0nat
        } else {
            1nat
        },
    decreases n,
{
    let s = acquire_ops().take(n).map_values(|op: TermOp| Action::Terminal(op));
    if n > 0 {
        assert(s.drop_last() =~= acquire_ops().take(n - 1).map_values(
            |op: TermOp| Action::Terminal(op),
        ));
        lemma_acquire_prefix_counts(n - 1);
    }
}

} // verus!
