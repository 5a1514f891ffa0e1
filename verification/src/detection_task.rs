//! The periodic detection poll: which detections are announced, in which
//! words, and how often.

use vstd::prelude::*;
use vstd::string::*;
use crate::camera_controller::{listing, CameraError, Detection};
use crate::clock::{elapsed_secs, whole_seconds_between};
use crate::config::{DetectionConfig, OptimizationConfig};
use crate::text::str_eq;

verus! {

/// Seconds to pause after each announcement of a batch.
pub const ANNOUNCEMENT_PAUSE_SECS: u64 = 2;

/// Seconds to wait after a failed detection, on top of the scan interval.
pub const FAILURE_BACKOFF_SECS: u64 = 5;

/// The spoken name of a label; a label without one is spoken as it is.
pub open spec fn label_phrase(label: Seq<char>) -> Seq<char> {
    if label == "person"@ {
        "человек"@
    } else if label == "car"@ {
        "машина"@
    } else if label == "dog"@ {
        "собака"@
    } else if label == "cat"@ {
        "кошка"@
    } else if label == "bird"@ {
        "птица"@
    } else if label == "bicycle"@ {
        "велосипед"@
    } else if label == "motorcycle"@ {
        "мотоцикл"@
    } else {
        label
    }
}

/// The announcement of a detection with the given label. A person is
/// announced with emphasis where `announce_person` is set.
pub open spec fn detection_message(label: Seq<char>, announce_person: bool) -> Seq<char> {
    if announce_person && label == "person"@ {
        "Внимание! Обнаружен "@ + label_phrase(label)
    } else {
        "Обнаружен "@ + label_phrase(label)
    }
}

/// The words that announce `detection`.
pub fn format_detection_message(detection: &Detection, config: &DetectionConfig) -> (message:
    String)
    ensures
        message@ == detection_message(detection.label@, config.announce_person),
{
    let label = detection.label.as_str();
    let person = str_eq(label, "person");
    let phrase: &str = if person {
        "человек"
    } else if str_eq(label, "car") {
        "машина"
    } else if str_eq(label, "dog") {
        "собака"
    } else if str_eq(label, "cat") {
        "кошка"
    } else if str_eq(label, "bird") {
        "птица"
    } else if str_eq(label, "bicycle") {
        "велосипед"
    } else if str_eq(label, "motorcycle") {
        "мотоцикл"
    } else {
        label
    };
    let mut message = if config.announce_person && person {
        String::from_str("Внимание! Обнаружен ")
    } else {
        String::from_str("Обнаружен ")
    };
    message.append(phrase);
    message
}

/// Whether `label` is one of `classes`.
pub open spec fn enabled(classes: Seq<String>, label: Seq<char>) -> bool {
    exists|i: int| 0 <= i < classes.len() && (#[trigger] classes[i])@ == label
}

/// Computes [`enabled`].
pub fn is_enabled(classes: &Vec<String>, label: &str) -> (found: bool)
    ensures
        found == enabled(classes@, label@),
{
    let mut i: usize = 0;
    while i < classes.len()
        invariant
            i <= classes.len(),
            forall|k: int| 0 <= k < i ==> (#[trigger] classes@[k])@ != label@,
        decreases classes.len() - i,
    {
        if str_eq(classes[i].as_str(), label) {
            return true;
        }
        i = i + 1;
    }
    false
}

/// The test that a detection passes when its label is one of the enabled
/// classes.
pub open spec fn announced(config: DetectionConfig) -> spec_fn(Detection) -> bool {
    |detection: Detection| enabled(config.enabled_classes@, detection.label@)
}

/// The function that takes a detection to its announcement.
pub open spec fn worded(config: DetectionConfig) -> spec_fn(Detection) -> Seq<char> {
    |detection: Detection| detection_message(detection.label@, config.announce_person)
}

/// The number of detections of a batch that are considered for
/// announcement.
pub open spec fn batch_len(detections: Seq<Detection>, config: DetectionConfig) -> int {
    if config.max_detections < detections.len() {
        config.max_detections as int
    } else {
        detections.len() as int
    }
}

/// The announcements of a batch: of its first `max_detections` entries those
/// with an enabled label, each in its words, in their order.
pub open spec fn batch_phrases(detections: Seq<Detection>, config: DetectionConfig) -> Seq<
    Seq<char>,
> {
    detections.take(batch_len(detections, config)).filter(announced(config)).map_values(
        worded(config),
    )
}

/// The characters of each string of `phrases`.
pub open spec fn texts(phrases: Seq<String>) -> Seq<Seq<char>> {
    phrases.map_values(|phrase: String| phrase@)
}

/// Computes [`batch_phrases`].
pub fn announcements(detections: &Vec<Detection>, config: &DetectionConfig) -> (phrases: Vec<
    String,
>)
    ensures
        texts(phrases@) == batch_phrases(detections@, *config),
{
    let limit = if config.max_detections < detections.len() {
        config.max_detections
    } else {
        detections.len()
    };
    let mut phrases: Vec<String> = Vec::new();
    let mut i: usize = 0;
    while i < limit
        invariant
            i <= limit == batch_len(detections@, *config),
            limit <= detections.len(),
            texts(phrases@) == detections@.take(i as int).filter(announced(*config)).map_values(
                worded(*config),
            ),
        decreases limit - i,
    {
        let detection = &detections[i];
        proof {
            reveal(Seq::filter);
            assert(detections@.take(i + 1).drop_last() =~= detections@.take(i as int));
        }
        if is_enabled(&config.enabled_classes, detection.label.as_str()) {
            let message = format_detection_message(detection, config);
            phrases.push(message);
            assert(detections@.take(i + 1).filter(announced(*config)).map_values(worded(*config))
                =~= detections@.take(i as int).filter(announced(*config)).map_values(
                worded(*config),
            ).push(message@));
        }
        i = i + 1;
    }
    phrases
}

/// What the caller does after one poll of the detection worker.
#[derive(Debug, Clone, PartialEq, Eq)]
pub enum DetectionAction {
    /// Nothing to announce.
    Idle,
    /// Speak each phrase as a routine message, pausing
    /// [`ANNOUNCEMENT_PAUSE_SECS`] after each, then report the end of the
    /// batch with [`DetectionTask::batch_done`].
    Announce { phrases: Vec<String> },
    /// The poll failed: wait [`FAILURE_BACKOFF_SECS`] before the next period.
    Backoff,
}

/// A [`DetectionAction`] as plain values.
pub enum DetectionPlan {
    Idle,
    Announce { phrases: Seq<Seq<char>> },
    Backoff,
}

impl View for DetectionAction {
    type V = DetectionPlan;

    open spec fn view(&self) -> DetectionPlan {
        match self {
            DetectionAction::Idle => DetectionPlan::Idle,
            DetectionAction::Announce { phrases } => DetectionPlan::Announce {
                phrases: texts(phrases@),
            },
            DetectionAction::Backoff => DetectionPlan::Backoff,
        }
    }
}

/// The cycle count after `count`; it starts over after the largest value.
pub open spec fn next_cycle(count: u32) -> u32 {
    if count == u32::MAX {
        0
    } else {
        (count + 1) as u32
    }
}

/// State of the detection task.
#[derive(Debug, Clone)]
pub struct DetectionTask {
    pub config: DetectionConfig,
    pub optimization: OptimizationConfig,
    /// Clock reading at the last announced batch.
    pub last_detection: u64,
    /// Polls made so far.
    pub cycle_count: u32,
}

impl DetectionTask {
    /// The action that a poll at `now` with the outcome `outcome` calls for.
    pub open spec fn decide(self, now: u64, outcome: Result<Seq<Detection>, CameraError>)
        -> DetectionPlan {
        match outcome {
            Err(_) => DetectionPlan::Backoff,
            Ok(found) => {
                if found.len() > 0 && elapsed_secs(self.last_detection, now)
                    >= self.config.cooldown_period {
                    DetectionPlan::Announce { phrases: batch_phrases(found, self.config) }
                } else {
                    DetectionPlan::Idle
                }
            },
        }
    }

    /// The state after a poll at `now` with the outcome `outcome`.
    pub open spec fn after(self, now: u64, outcome: Result<Seq<Detection>, CameraError>)
        -> DetectionTask {
        if self.decide(now, outcome) is Announce {
            DetectionTask { last_detection: now, ..self }
        } else {
            self
        }
    }

    /// The state after a batch whose announcements ended at `now`.
    pub open spec fn after_batch(self, now: u64) -> DetectionTask {
        if now > self.last_detection {
            DetectionTask { last_detection: now, ..self }
        } else {
            self
        }
    }

    /// Whether the poll that is about to begin is one at which memory is
    /// tidied up.
    pub open spec fn cleanup_due(self) -> bool {
        self.optimization.force_gc_interval > 0 && next_cycle(self.cycle_count)
            % self.optimization.force_gc_interval == 0
    }

    /// A task that starts at the clock reading `now`, from which the first
    /// cooldown is counted.
    pub fn new(config: DetectionConfig, optimization: OptimizationConfig, now: u64) -> (task:
        DetectionTask)
        ensures
            task == (DetectionTask { config, optimization, last_detection: now, cycle_count: 0 }),
    {
        DetectionTask { config, optimization, last_detection: now, cycle_count: 0 }
    }

    /// Counts one poll and says whether memory is to be tidied up before it.
    pub fn begin_cycle(&mut self) -> (cleanup: bool)
        ensures
            cleanup == old(self).cleanup_due(),
            *final(self) == (DetectionTask {
                cycle_count: next_cycle(old(self).cycle_count),
                ..*old(self)
            }),
    {
        self.cycle_count = if self.cycle_count == u32::MAX {
            0
        } else {
            self.cycle_count + 1
        };
        self.optimization.force_gc_interval > 0 && self.cycle_count
            % self.optimization.force_gc_interval == 0
    }

    /// Handles the outcome of one poll made at the clock reading `now`.
    pub fn step(&mut self, now: u64, outcome: &Result<Vec<Detection>, CameraError>) -> (action:
        DetectionAction)
        ensures
            action@ == old(self).decide(now, listing(*outcome)),
            *final(self) == old(self).after(now, listing(*outcome)),
    {
        match outcome {
            Err(_) => DetectionAction::Backoff,
            Ok(found) => {
                if found.len() > 0 && whole_seconds_between(self.last_detection, now)
                    >= self.config.cooldown_period {
                    let phrases = announcements(found, &self.config);
                    self.last_detection = now;
                    DetectionAction::Announce { phrases }
                } else {
                    DetectionAction::Idle
                }
            },
        }
    }

    /// Records that the announcements of a batch ended at the clock reading
    /// `now`: the cooldown is counted from there.
    pub fn batch_done(&mut self, now: u64)
        ensures
            *final(self) == old(self).after_batch(now),
    {
        if now > self.last_detection {
            self.last_detection = now;
        }
    }
}

/// One thing that happens to the detection task: a poll, or the end of a
/// batch of announcements.
pub enum DetectionInput {
    Poll { now: u64, outcome: Result<Seq<Detection>, CameraError> },
    BatchDone { now: u64 },
}

impl DetectionInput {
    /// The clock reading at which the input arrived.
    pub open spec fn time(self) -> u64 {
        match self {
            DetectionInput::Poll { now, .. } => now,
            DetectionInput::BatchDone { now } => now,
        }
    }
}

impl DetectionTask {
    /// The action that `input` calls for.
    pub open spec fn respond(self, input: DetectionInput) -> DetectionPlan {
        match input {
            DetectionInput::Poll { now, outcome } => self.decide(now, outcome),
            DetectionInput::BatchDone { .. } => DetectionPlan::Idle,
        }
    }

    /// The state after `input`.
    pub open spec fn apply(self, input: DetectionInput) -> DetectionTask {
        match input {
            DetectionInput::Poll { now, outcome } => self.after(now, outcome),
            DetectionInput::BatchDone { now } => self.after_batch(now),
        }
    }

    /// The state after all of `inputs`, in order.
    pub open spec fn run(self, inputs: Seq<DetectionInput>) -> DetectionTask
        decreases inputs.len(),
    {
        if inputs.len() == 0 {
            self
        } else {
            self.run(inputs.drop_last()).apply(inputs.last())
        }
    }

    /// The action taken at the `i`-th of `inputs`.
    pub open spec fn action_at(self, inputs: Seq<DetectionInput>, i: int) -> DetectionPlan {
        self.run(inputs.take(i)).respond(inputs[i])
    }

    /// Running one input more is running the shorter trace, then that input.
    proof fn lemma_run_next(self, inputs: Seq<DetectionInput>, k: int)
        requires
            0 <= k < inputs.len(),
        ensures
            self.run(inputs.take(k + 1)) == self.run(inputs.take(k)).apply(inputs[k]),
    {
        assert(inputs.take(k + 1).drop_last() =~= inputs.take(k));
    }

    /// No input changes the configuration.
    proof fn lemma_run_keeps_config(self, inputs: Seq<DetectionInput>, k: int)
        requires
            0 <= k <= inputs.len(),
        ensures
            self.run(inputs.take(k)).config == self.config,
        decreases k,
    {
        if k > 0 {
            self.lemma_run_keeps_config(inputs, k - 1);
            self.lemma_run_next(inputs, k - 1);
        }
    }

    /// After an announced batch at the `i`-th input the cooldown timer never
    /// reads earlier than that input's time, unless there is no cooldown.
    proof fn lemma_timer_from(self, inputs: Seq<DetectionInput>, i: int, k: int)
        requires
            0 <= i < k <= inputs.len(),
            self.config.cooldown_period > 0,
            self.action_at(inputs, i) is Announce,
        ensures
            self.run(inputs.take(k)).last_detection >= inputs[i].time(),
        decreases k - i,
    {
        self.lemma_run_next(inputs, k - 1);
        self.lemma_run_keeps_config(inputs, k - 1);
        if k - 1 > i {
            self.lemma_timer_from(inputs, i, k - 1);
        }
    }

    /// Two announced batches are at least the cooldown period apart,
    /// whatever happens in between: of two batches that arrive closer
    /// together, only the first is announced.
    pub proof fn law_batches_spaced(self, inputs: Seq<DetectionInput>, i: int, j: int)
        requires
            0 <= i < j < inputs.len(),
            self.action_at(inputs, i) is Announce,
            self.action_at(inputs, j) is Announce,
        ensures
            elapsed_secs(inputs[i].time(), inputs[j].time()) >= self.config.cooldown_period,
    {
        if self.config.cooldown_period > 0 {
            self.lemma_timer_from(inputs, i, j);
            self.lemma_run_keeps_config(inputs, j);
        }
    }
}

} // verus!
