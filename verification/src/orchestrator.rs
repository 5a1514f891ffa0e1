//! The life of the controller as a whole: start-up, normal running,
//! shutdown. There is no way back from a later phase to an earlier one.

use vstd::prelude::*;

verus! {

/// The phases of the controller, in the order in which they are passed.
#[derive(Debug, Clone, Copy, PartialEq, Eq, Structural)]
pub enum Phase {
    /// The controllers are being constructed.
    Starting,
    /// The detection task runs, and the power task where it is enabled.
    Running,
    /// The announcement of the shutdown and the teardown are under way.
    ShuttingDown,
    /// Everything is torn down.
    Stopped,
}

impl Phase {
    /// The place of the phase in the order of phases.
    pub open spec fn rank(self) -> int {
        match self {
            Phase::Starting => 0,
            Phase::Running => 1,
            Phase::ShuttingDown => 2,
            Phase::Stopped => 3,
        }
    }
}

/// What can happen to the controller.
#[derive(Debug, Clone, Copy, PartialEq, Eq, Structural)]
pub enum LifecycleEvent {
    /// All enabled controllers were constructed.
    ControllersReady,
    /// The process was asked to terminate.
    TerminationSignal,
    /// The detection task ended, which it never does of its own accord.
    DetectionTaskEnded,
    /// The teardown completed, failed or ran out of time.
    TeardownFinished,
}

/// What the caller does after an event.
#[derive(Debug, Clone, Copy, PartialEq, Eq, Structural)]
pub enum LifecycleAction {
    /// Nothing: the event does not matter in the present phase.
    Ignore,
    /// Announce the start as a routine message, then start the detection
    /// task, and the power task where `power_task` is set.
    Launch { power_task: bool },
    /// Announce the shutdown with priority, shut the detection worker down,
    /// cancel the power task where `cancel_power_task` is set, then report
    /// [`LifecycleEvent::TeardownFinished`].
    Teardown { cancel_power_task: bool },
    /// Leave the process.
    Halt,
}

/// The controller as a whole.
#[derive(Debug, Clone, Copy, PartialEq, Eq, Structural)]
pub struct Orchestrator {
    pub phase: Phase,
    /// Whether battery monitoring is enabled.
    pub power_enabled: bool,
}

impl Orchestrator {
    /// The action that `event` calls for.
    pub open spec fn respond(self, event: LifecycleEvent) -> LifecycleAction {
        match (self.phase, event) {
            (Phase::Starting, LifecycleEvent::ControllersReady) => LifecycleAction::Launch {
                power_task: self.power_enabled,
            },
            (Phase::Running, LifecycleEvent::TerminationSignal) => LifecycleAction::Teardown {
                cancel_power_task: self.power_enabled,
            },
            (Phase::Running, LifecycleEvent::DetectionTaskEnded) => LifecycleAction::Teardown {
                cancel_power_task: self.power_enabled,
            },
            (Phase::ShuttingDown, LifecycleEvent::TeardownFinished) => LifecycleAction::Halt,
            _ => LifecycleAction::Ignore,
        }
    }

    /// The state after `event`.
    pub open spec fn apply(self, event: LifecycleEvent) -> Orchestrator {
        match self.respond(event) {
            LifecycleAction::Ignore => self,
            LifecycleAction::Launch { .. } => Orchestrator { phase: Phase::Running, ..self },
            LifecycleAction::Teardown { .. } => Orchestrator {
                phase: Phase::ShuttingDown,
                ..self
            },
            LifecycleAction::Halt => Orchestrator { phase: Phase::Stopped, ..self },
        }
    }

    /// The state after all of `events`, in order.
    pub open spec fn run(self, events: Seq<LifecycleEvent>) -> Orchestrator
        decreases events.len(),
    {
        if events.len() == 0 {
            self
        } else {
            self.run(events.drop_last()).apply(events.last())
        }
    }

    /// The action taken at the `i`-th of `events`.
    pub open spec fn action_at(self, events: Seq<LifecycleEvent>, i: int) -> LifecycleAction {
        self.run(events.take(i)).respond(events[i])
    }

    /// A controller that is starting.
    pub fn new(power_enabled: bool) -> (made: Orchestrator)
        ensures
            made == (Orchestrator { phase: Phase::Starting, power_enabled }),
    {
        Orchestrator { phase: Phase::Starting, power_enabled }
    }

    /// Handles one event.
    pub fn handle(&mut self, event: LifecycleEvent) -> (action: LifecycleAction)
        ensures
            action == old(self).respond(event),
            *final(self) == old(self).apply(event),
            old(self).phase.rank() <= final(self).phase.rank() <= old(self).phase.rank() + 1,
    {
        match (self.phase, event) {
            (Phase::Starting, LifecycleEvent::ControllersReady) => {
                self.phase = Phase::Running;
                LifecycleAction::Launch { power_task: self.power_enabled }
            },
            (Phase::Running, LifecycleEvent::TerminationSignal) | (
                Phase::Running,
                LifecycleEvent::DetectionTaskEnded,
            ) => {
                self.phase = Phase::ShuttingDown;
                LifecycleAction::Teardown { cancel_power_task: self.power_enabled }
            },
            (Phase::ShuttingDown, LifecycleEvent::TeardownFinished) => {
                self.phase = Phase::Stopped;
                LifecycleAction::Halt
            },
            _ => LifecycleAction::Ignore,
        }
    }

    /// Running one event more is running the shorter trace, then that event.
    proof fn lemma_run_next(self, events: Seq<LifecycleEvent>, k: int)
        requires
            0 <= k < events.len(),
        ensures
            self.run(events.take(k + 1)) == self.run(events.take(k)).apply(events[k]),
    {
        assert(events.take(k + 1).drop_last() =~= events.take(k));
    }

    /// Whatever happens, the controller never returns to an earlier phase.
    pub proof fn law_no_way_back(self, events: Seq<LifecycleEvent>, i: int, j: int)
        requires
            0 <= i <= j <= events.len(),
        ensures
            self.run(events.take(i)).phase.rank() <= self.run(events.take(j)).phase.rank(),
        decreases j - i,
    {
        if i < j {
            self.law_no_way_back(events, i, j - 1);
            self.lemma_run_next(events, j - 1);
        }
    }

    /// The controller is launched at most once and torn down at most once:
    /// an action other than `Ignore` is never taken twice.
    pub proof fn law_each_step_once(self, events: Seq<LifecycleEvent>, i: int, j: int)
        requires
            0 <= i < j < events.len(),
            self.action_at(events, i) != LifecycleAction::Ignore,
        ensures
            self.action_at(events, j) != self.action_at(events, i),
    {
        self.lemma_run_next(events, i);
        self.law_no_way_back(events, i + 1, j);
    }
}

} // verus!
