//! The periodic battery check: what to announce after each reading, and when
//! to stop for good.

use vstd::prelude::*;
use crate::clock::{elapsed_secs, whole_seconds_between};
use crate::config::PowerConfig;
use crate::power_monitor::{PowerError, PowerStatus};

verus! {

/// Seconds to wait between the critical alert and the host shutdown.
pub const SHUTDOWN_GRACE_SECS: u64 = 3;

/// What the caller does after one battery check.
#[derive(Debug, Clone, Copy, PartialEq, Eq, Structural)]
pub enum PowerAction {
    /// Nothing to announce; check again after the next period.
    Continue,
    /// Announce a low battery, then report the end of the announcement with
    /// [`PowerTask::warning_done`].
    Warn,
    /// Announce the critical alert with priority, wait
    /// [`SHUTDOWN_GRACE_SECS`], shut the host down if `host_shutdown` is set,
    /// and end the task.
    Shutdown { host_shutdown: bool },
    /// The task has ended before; there is nothing left to do.
    Stopped,
}

/// State of the battery task.
#[derive(Debug, Clone, Copy, PartialEq, Eq, Structural)]
pub struct PowerTask {
    pub config: PowerConfig,
    /// Clock reading at the last warning.
    pub last_warning: u64,
    /// Set once the critical alert was issued.
    pub finished: bool,
}

impl PowerTask {
    /// The action that a check at `now` with the outcome `reading` calls for.
    pub open spec fn decide(self, now: u64, reading: Result<PowerStatus, PowerError>) -> PowerAction {
        if self.finished {
            PowerAction::Stopped
        } else {
            match reading {
                Err(_) => PowerAction::Continue,
                Ok(status) => {
                    if status.voltage < self.config.shutdown_voltage {
                        PowerAction::Shutdown { host_shutdown: self.config.auto_shutdown }
                    } else if status.voltage < self.config.warning_voltage && elapsed_secs(
                        self.last_warning,
                        now,
                    ) >= self.config.warning_repeat_interval {
                        PowerAction::Warn
                    } else {
                        PowerAction::Continue
                    }
                },
            }
        }
    }

    /// The state after a check at `now` with the outcome `reading`.
    pub open spec fn after(self, now: u64, reading: Result<PowerStatus, PowerError>) -> PowerTask {
        match self.decide(now, reading) {
            PowerAction::Shutdown { .. } => PowerTask { finished: true, ..self },
            PowerAction::Warn => PowerTask { last_warning: now, ..self },
            _ => self,
        }
    }

    /// A task that starts at the clock reading `now`, from which the first
    /// warning interval is counted.
    pub fn new(config: PowerConfig, now: u64) -> (task: PowerTask)
        ensures
            task == (PowerTask { config, last_warning: now, finished: false }),
    {
        PowerTask { config, last_warning: now, finished: false }
    }

    /// Handles one battery check made at the clock reading `now`.
    pub fn step(&mut self, now: u64, reading: &Result<PowerStatus, PowerError>) -> (action:
        PowerAction)
        ensures
            action == old(self).decide(now, *reading),
            *final(self) == old(self).after(now, *reading),
    {
        if self.finished {
            return PowerAction::Stopped;
        }
        match reading {
            Err(_) => PowerAction::Continue,
            Ok(status) => {
                if status.voltage < self.config.shutdown_voltage {
                    self.finished = true;
                    PowerAction::Shutdown { host_shutdown: self.config.auto_shutdown }
                } else if status.voltage < self.config.warning_voltage && whole_seconds_between(
                    self.last_warning,
                    now,
                ) >= self.config.warning_repeat_interval {
                    self.last_warning = now;
                    PowerAction::Warn
                } else {
                    PowerAction::Continue
                }
            },
        }
    }
}

/// One thing that happens to the battery task: a check, or the end of a
/// warning announcement.
#[derive(Debug, Clone, Copy, PartialEq, Eq)]
pub enum PowerInput {
    Check { now: u64, reading: Result<PowerStatus, PowerError> },
    WarningDone { now: u64 },
}

impl PowerInput {
    /// The clock reading at which the input arrived.
    pub open spec fn time(self) -> u64 {
        match self {
            PowerInput::Check { now, .. } => now,
            PowerInput::WarningDone { now } => now,
        }
    }

    /// Whether the input is a successful reading below `threshold`.
    pub open spec fn reads_below(self, threshold: u32) -> bool {
        match self {
            PowerInput::Check { reading: Ok(status), .. } => status.voltage < threshold,
            _ => false,
        }
    }
}

impl PowerAction {
    /// Whether the action speaks to the user.
    pub open spec fn announces(self) -> bool {
        self is Warn || self is Shutdown
    }
}

impl PowerTask {
    /// The state after a warning announcement that ended at `now`.
    pub open spec fn after_warning(self, now: u64) -> PowerTask {
        if now > self.last_warning {
            PowerTask { last_warning: now, ..self }
        } else {
            self
        }
    }

    /// Records that a warning announcement ended at the clock reading `now`:
    /// the warning interval is counted from there.
    pub fn warning_done(&mut self, now: u64)
        ensures
            *final(self) == old(self).after_warning(now),
    {
        if now > self.last_warning {
            self.last_warning = now;
        }
    }

    /// The action that `input` calls for.
    pub open spec fn respond(self, input: PowerInput) -> PowerAction {
        match input {
            PowerInput::Check { now, reading } => self.decide(now, reading),
            PowerInput::WarningDone { .. } => PowerAction::Continue,
        }
    }

    /// The state after `input`.
    pub open spec fn apply(self, input: PowerInput) -> PowerTask {
        match input {
            PowerInput::Check { now, reading } => self.after(now, reading),
            PowerInput::WarningDone { now } => self.after_warning(now),
        }
    }

    /// The state after all of `inputs`, in order.
    pub open spec fn run(self, inputs: Seq<PowerInput>) -> PowerTask
        decreases inputs.len(),
    {
        if inputs.len() == 0 {
            self
        } else {
            self.run(inputs.drop_last()).apply(inputs.last())
        }
    }

    /// The action taken at the `i`-th of `inputs`.
    pub open spec fn action_at(self, inputs: Seq<PowerInput>, i: int) -> PowerAction {
        self.run(inputs.take(i)).respond(inputs[i])
    }

    /// Running one input more is running the shorter trace, then that input.
    proof fn lemma_run_next(self, inputs: Seq<PowerInput>, k: int)
        requires
            0 <= k < inputs.len(),
        ensures
            self.run(inputs.take(k + 1)) == self.run(inputs.take(k)).apply(inputs[k]),
    {
        assert(inputs.take(k + 1).drop_last() =~= inputs.take(k));
    }

    /// No input changes the configuration, and a task stays unfinished as
    /// long as no reading fell below the shutdown voltage.
    proof fn lemma_run_keeps(self, inputs: Seq<PowerInput>, k: int)
        requires
            0 <= k <= inputs.len(),
        ensures
            self.run(inputs.take(k)).config == self.config,
            self.finished ==> self.run(inputs.take(k)).finished,
            !self.finished && (forall|m: int|
                0 <= m < k ==> !inputs[m].reads_below(self.config.shutdown_voltage))
                ==> !self.run(inputs.take(k)).finished,
        decreases k,
    {
        if k > 0 {
            self.lemma_run_keeps(inputs, k - 1);
            self.lemma_run_next(inputs, k - 1);
        }
    }

    /// Once the task has issued the critical alert it stays finished.
    proof fn lemma_finished_from(self, inputs: Seq<PowerInput>, i: int, k: int)
        requires
            0 <= i < k <= inputs.len(),
            self.action_at(inputs, i) is Shutdown,
        ensures
            self.run(inputs.take(k)).finished,
        decreases k - i,
    {
        self.lemma_run_next(inputs, k - 1);
        if k - 1 > i {
            self.lemma_finished_from(inputs, i, k - 1);
        }
    }

    /// After a warning at the `i`-th input the warning timer never reads
    /// earlier than that input's time, unless warnings may repeat at once.
    proof fn lemma_timer_from(self, inputs: Seq<PowerInput>, i: int, k: int)
        requires
            0 <= i < k <= inputs.len(),
            self.config.warning_repeat_interval > 0,
            self.action_at(inputs, i) is Warn,
        ensures
            self.run(inputs.take(k)).last_warning >= inputs[i].time(),
        decreases k - i,
    {
        self.lemma_run_next(inputs, k - 1);
        self.lemma_run_keeps(inputs, k - 1);
        if k - 1 > i {
            self.lemma_timer_from(inputs, i, k - 1);
        }
    }

    /// The critical alert is issued once: after it, nothing that happens to
    /// the task makes it announce anything again.
    pub proof fn law_silent_after_shutdown(self, inputs: Seq<PowerInput>, i: int, j: int)
        requires
            0 <= i < j < inputs.len(),
            self.action_at(inputs, i) is Shutdown,
        ensures
            !self.action_at(inputs, j).announces(),
            self.run(inputs).finished,
    {
        self.lemma_finished_from(inputs, i, j);
        self.lemma_finished_from(inputs, i, inputs.len() as int);
        assert(inputs.take(inputs.len() as int) =~= inputs);
    }

    /// The first reading below the shutdown voltage makes a running task
    /// issue the critical alert.
    pub proof fn law_shutdown_on_first_low_reading(self, inputs: Seq<PowerInput>, i: int)
        requires
            !self.finished,
            0 <= i < inputs.len(),
            inputs[i].reads_below(self.config.shutdown_voltage),
            forall|m: int| 0 <= m < i ==> !inputs[m].reads_below(self.config.shutdown_voltage),
        ensures
            self.action_at(inputs, i) == (PowerAction::Shutdown {
                host_shutdown: self.config.auto_shutdown,
            }),
    {
        self.lemma_run_keeps(inputs, i);
    }

    /// Two warnings are at least the repeat interval apart, whatever happens
    /// in between.
    pub proof fn law_warnings_spaced(self, inputs: Seq<PowerInput>, i: int, j: int)
        requires
            0 <= i < j < inputs.len(),
            self.action_at(inputs, i) is Warn,
            self.action_at(inputs, j) is Warn,
        ensures
            elapsed_secs(inputs[i].time(), inputs[j].time())
                >= self.config.warning_repeat_interval,
    {
        if self.config.warning_repeat_interval > 0 {
            self.lemma_timer_from(inputs, i, j);
            self.lemma_run_keeps(inputs, j);
        }
    }
}

} // verus!
