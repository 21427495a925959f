//! The setup run as a state machine: the host side performs each step and
//! reports how it went; the machine decides what comes next.

use vstd::prelude::*;
use crate::setup::{SetupStep, StartupError, failure_of, planned_steps, setup_plan};

verus! {

/// Where the setup run stands.
#[derive(PartialEq, Eq, Structural, Clone, Copy, Debug)]
pub enum Phase {
    /// Setup has not been invoked yet.
    Idle,
    /// A step has been handed out and its outcome is awaited.
    Running,
    /// Every step is done: the host may enter its run loop.
    Finished,
    /// A step failed fatally: the application must not launch.
    Aborted(StartupError),
}

/// What the host side reports to the machine.
#[derive(PartialEq, Eq, Structural, Clone, Copy, Debug)]
pub enum Event {
    /// The host invokes setup.
    Begin,
    /// The step handed out last was performed.
    Succeeded,
    /// The step handed out last could not be performed.
    Failed,
}

/// What the host side is to do next.
#[derive(PartialEq, Eq, Structural, Clone, Copy, Debug)]
pub enum Action {
    /// Perform this step and report its outcome.
    Perform(SetupStep),
    /// Setup succeeded: continue into the run loop.
    Proceed,
    /// Setup failed: terminate with this error.
    Abort(StartupError),
    /// The event does not apply in the current phase: do nothing.
    Ignore,
}

/// The state of a setup run: its steps, the index of the current one, and
/// its phase.
pub struct SetupModel {
    pub plan: Seq<SetupStep>,
    pub pos: nat,
    pub phase: Phase,
}

/// The step at `pos` is current; past the last step, setup is finished.
pub open spec fn enter(plan: Seq<SetupStep>, pos: nat) -> (SetupModel, Action) {
    if pos < plan.len() {
        (SetupModel { plan, pos, phase: Phase::Running }, Action::Perform(plan[pos as int]))
    } else {
        (SetupModel { plan, pos: plan.len(), phase: Phase::Finished }, Action::Proceed)
    }
}

/// The state after an event, and the action it calls for.
pub open spec fn transition(s: SetupModel, e: Event) -> (SetupModel, Action) {
    match (s.phase, e) {
        (Phase::Idle, Event::Begin) => enter(s.plan, 0),
        (Phase::Running, Event::Succeeded) => enter(s.plan, s.pos + 1),
        (Phase::Running, Event::Failed) => match failure_of(s.plan[s.pos as int]) {
            Some(err) => (
                SetupModel { plan: s.plan, pos: s.pos, phase: Phase::Aborted(err) },
                Action::Abort(err),
            ),
            None => enter(s.plan, s.pos + 1),
        },
        _ => (s, Action::Ignore),
    }
}

/// The state after a series of events.
pub open spec fn run_events(s: SetupModel, events: Seq<Event>) -> SetupModel
    decreases events.len(),
{
    if events.len() == 0 {
        s
    } else {
        run_events(transition(s, events[0]).0, events.drop_first())
    }
}

/// The current step exists while a step is awaited.
pub open spec fn well_formed(s: SetupModel) -> bool {
    &&& s.pos <= s.plan.len()
    &&& s.phase is Running ==> s.pos < s.plan.len()
}

/// Setup is entered at most once: once it has begun, no series of events
/// brings the run back to `Idle`, a later `Begin` is ignored, and a run
/// that has finished or aborted stays as it is.
pub proof fn lemma_setup_runs_once(s: SetupModel, events: Seq<Event>)
    requires
        well_formed(s),
        !(s.phase is Idle),
    ensures
        !(run_events(s, events).phase is Idle),
        transition(run_events(s, events), Event::Begin) == (run_events(s, events), Action::Ignore),
        (s.phase is Finished || s.phase is Aborted) ==> run_events(s, events) == s,
    decreases events.len(),
{
    if events.len() > 0 {
        let next = transition(s, events[0]).0;
        lemma_setup_runs_once(next, events.drop_first());
    }
}

/// When the main window cannot be found, startup aborts with
/// `MainWindowMissing`, and no later event lets it proceed.
pub proof fn lemma_missing_main_window_aborts(s: SetupModel, events: Seq<Event>)
    requires
        well_formed(s),
        s.phase is Running,
        s.plan[s.pos as int] == SetupStep::LocateMainWindow,
    ensures
        transition(s, Event::Failed).1 == Action::Abort(StartupError::MainWindowMissing),
        run_events(transition(s, Event::Failed).0, events).phase
            == Phase::Aborted(StartupError::MainWindowMissing),
{
    lemma_setup_runs_once(transition(s, Event::Failed).0, events);
}

/// A setup run, driven by [`Setup::handle`].
pub struct Setup {
    plan: Vec<SetupStep>,
    pos: usize,
    phase: Phase,
}

impl View for Setup {
    type V = SetupModel;

    closed spec fn view(&self) -> SetupModel {
        SetupModel { plan: self.plan@, pos: self.pos as nat, phase: self.phase }
    }
}

impl Setup {
    /// A run that has not begun, over the steps of `setup_plan`.
    pub fn new(debug: bool, native_menu_bar: bool) -> (r: Setup)
        ensures
            r@ == (SetupModel { plan: planned_steps(debug, native_menu_bar), pos: 0, phase: Phase::Idle }),
            well_formed(r@),
    {
        Setup { plan: setup_plan(debug, native_menu_bar), pos: 0, phase: Phase::Idle }
    }

    /// The phase the run is in.
    pub fn phase(&self) -> (r: Phase)
        ensures
            r == self@.phase,
    {
        self.phase
    }

    /// Moves to the step at `pos`, or finishes when there is none.
    fn enter_step(&mut self, pos: usize) -> (r: Action)
        requires
            pos <= old(self).plan@.len(),
        ensures
            (final(self)@, r) == enter(old(self)@.plan, pos as nat),
    {
        if pos < self.plan.len() {
            self.pos = pos;
            self.phase = Phase::Running;
            Action::Perform(self.plan[pos])
        } else {
            self.pos = self.plan.len();
            self.phase = Phase::Finished;
            Action::Proceed
        }
    }

    /// Takes the host side's report and returns what it is to do next.
    pub fn handle(&mut self, e: Event) -> (r: Action)
        requires
            well_formed(old(self)@),
        ensures
            (final(self)@, r) == transition(old(self)@, e),
            well_formed(final(self)@),
    {
        match self.phase {
            Phase::Idle => match e {
                Event::Begin => self.enter_step(0),
                _ => Action::Ignore,
            },
            Phase::Running => {
                let len = self.plan.len();
                assert(self.pos < len);
                let next = self.pos + 1;
                match e {
                    Event::Begin => Action::Ignore,
                    Event::Succeeded => self.enter_step(next),
                    Event::Failed => match self.plan[self.pos] {
                        SetupStep::RetargetWindowsMenu => self.enter_step(next),
                        SetupStep::AttachPlugin(_) => self.abort(StartupError::LogPlugin),
                        SetupStep::LocateMainWindow => self.abort(StartupError::MainWindowMissing),
                        SetupStep::ApplyVibrancy(_) => self.abort(StartupError::Vibrancy),
                    },
                }
            },
            _ => Action::Ignore,
        }
    }

    /// Stops the run with a fatal error.
    fn abort(&mut self, err: StartupError) -> (r: Action)
        ensures
            final(self)@ == (SetupModel { plan: old(self)@.plan, pos: old(self)@.pos, phase: Phase::Aborted(err) }),
            r == Action::Abort(err),
    {
        self.phase = Phase::Aborted(err);
        Action::Abort(err)
    }
}

} // verus!
