//! The link to the detection worker: a strict exchange of one request line
//! for one response line, with a bounded wait.

use vstd::prelude::*;
use crate::binary32::Binary32;
use crate::config::CameraConfig;
use crate::text::{is_white_space, lemma_blank_trims_to_nothing, trim, trimmed};

verus! {

/// Where a detection lies in the picture, in the worker's units.
#[derive(Debug, Clone, Copy, PartialEq, Eq, Structural)]
pub struct BoundingBox {
    pub x: Binary32,
    pub y: Binary32,
    pub width: Binary32,
    pub height: Binary32,
}

/// One recognised object.
#[derive(Debug, Clone, PartialEq, Eq)]
pub struct Detection {
    pub label: String,
    pub confidence: Binary32,
    pub bbox: BoundingBox,
}

/// The test that a detection passes when its confidence is at least
/// `threshold`.
pub open spec fn confident(threshold: Binary32) -> spec_fn(Detection) -> bool {
    |detection: Detection| detection.confidence.at_least(threshold)
}

/// The detections that pass [`confident`], in their order.
pub open spec fn filtered(detections: Seq<Detection>, threshold: Binary32) -> Seq<Detection> {
    detections.filter(confident(threshold))
}

/// Filtering keeps exactly the detections whose confidence is at least the
/// threshold: a detection is among the kept ones if and only if it was among
/// the given ones and is that confident.
pub proof fn law_filter_keeps_the_confident(
    detections: Seq<Detection>,
    threshold: Binary32,
    detection: Detection,
)
    ensures
        filtered(detections, threshold).contains(detection) <==> detections.contains(detection)
            && detection.confidence.at_least(threshold),
    decreases detections.len(),
{
    reveal(Seq::filter);
    if detections.len() > 0 {
        let front = detections.drop_last();
        let last = detections.last();
        law_filter_keeps_the_confident(front, threshold, detection);
        let kept = filtered(front, threshold);
        assert(detections =~= front.push(last));
        assert(filtered(detections, threshold) == if confident(threshold)(last) {
            kept.push(last)
        } else {
            kept
        });
    }
}

/// Keeps the detections whose confidence is at least `threshold`.
pub fn filter_detections(detections: Vec<Detection>, threshold: Binary32) -> (kept: Vec<Detection>)
    ensures
        kept@ == filtered(detections@, threshold),
{
    let ghost all = detections@;
    let mut kept: Vec<Detection> = Vec::new();
    for detection in iter: detections.into_iter()
        invariant
            iter.seq() == all,
            kept@ == all.take(iter.index() as int).filter(confident(threshold)),
    {
        proof {
            reveal(Seq::filter);
            let i = iter.index() as int;
            assert(all.take(i + 1).drop_last() =~= all.take(i));
        }
        if detection.confidence.ge(threshold) {
            kept.push(detection);
        }
    }
    proof {
        assert(all.take(all.len() as int) =~= all);
    }
    kept
}

/// The line that asks the worker for one round of detection.
pub const DETECT_COMMAND: &'static str = "detect\n";

/// The line that asks the worker to exit.
pub const EXIT_COMMAND: &'static str = "exit\n";

/// Seconds to wait after the worker was spawned, while the camera and the
/// model initialise.
pub const WARMUP_SECS: u64 = 3;

/// Seconds to wait for the worker to exit.
pub const SHUTDOWN_TIMEOUT_SECS: u64 = 10;

/// Why an operation on the link failed.
#[derive(Debug, Clone, Copy, PartialEq, Eq, Structural)]
pub enum CameraError {
    /// The worker could not be spawned.
    SpawnFailed,
    /// The worker's input pipe could not be captured.
    StdinCapture,
    /// The worker's output pipe could not be captured.
    StdoutCapture,
    /// The link holds no input pipe.
    StdinUnavailable,
    /// The link holds no output pipe.
    StdoutUnavailable,
    /// The request could not be written.
    SendFailed,
    /// No response arrived in time.
    Timeout,
    /// Reading the response failed.
    ReadFailed,
    /// The response is not a list of detections.
    ParseFailed,
    /// The worker did not exit in time.
    ShutdownTimeout,
    /// Waiting for the worker's exit failed.
    WaitFailed,
}

/// How spawning the worker went.
#[derive(Debug, Clone, Copy, PartialEq, Eq, Structural)]
pub enum SpawnOutcome {
    /// The process could not be started.
    Failed,
    /// The process runs; `stdin` and `stdout` say which of its pipes were
    /// captured.
    Spawned { stdin: bool, stdout: bool },
}

/// Which of the worker's handles the link holds.
#[derive(Debug, Clone, Copy, PartialEq, Eq, Structural)]
pub struct LinkState {
    pub process: bool,
    pub stdin: bool,
    pub stdout: bool,
}

/// What came of one request to the worker.
#[derive(Debug, Clone, PartialEq, Eq)]
pub enum WorkerReply {
    /// The request could not be written.
    SendFailed,
    /// No line arrived within the timeout.
    TimedOut,
    /// Reading the line failed.
    ReadFailed,
    /// The line `text` arrived. `parsed` holds the detections that the
    /// payload of the line spells, see [`response_payload`], or `None` where
    /// it spells none or there is no payload.
    Line { text: String, parsed: Option<Vec<Detection>> },
}

/// What the caller does to shut the worker down.
#[derive(Debug, Clone, Copy, PartialEq, Eq, Structural)]
pub struct ShutdownPlan {
    /// Write [`EXIT_COMMAND`] to the worker, ignoring a failure.
    pub send_exit: bool,
    /// Wait up to [`SHUTDOWN_TIMEOUT_SECS`] for the process to exit and
    /// report the outcome with [`CameraController::finish_shutdown`].
    pub await_exit: bool,
}

/// How waiting for the worker's exit went.
#[derive(Debug, Clone, Copy, PartialEq, Eq, Structural)]
pub enum ExitOutcome {
    Exited,
    TimedOut,
    WaitFailed,
}

/// A result of [`CameraController::detect`] as plain values.
pub open spec fn listing(result: Result<Vec<Detection>, CameraError>) -> Result<
    Seq<Detection>,
    CameraError,
> {
    match result {
        Ok(detections) => Ok(detections@),
        Err(error) => Err(error),
    }
}

/// What a request yields, given the worker's reply and the confidence
/// threshold.
pub open spec fn detect_outcome(reply: WorkerReply, threshold: Binary32) -> Result<
    Seq<Detection>,
    CameraError,
> {
    match reply {
        WorkerReply::SendFailed => Err(CameraError::SendFailed),
        WorkerReply::TimedOut => Err(CameraError::Timeout),
        WorkerReply::ReadFailed => Err(CameraError::ReadFailed),
        WorkerReply::Line { text, parsed } => if trimmed(text@).len() == 0 {
            Ok(Seq::empty())
        } else {
            match parsed {
                None => Err(CameraError::ParseFailed),
                Some(found) => Ok(filtered(found@, threshold)),
            }
        },
    }
}

/// A line of nothing but whitespace yields an empty list, never an error,
/// whatever the caller made of it.
pub proof fn law_blank_line_yields_nothing(
    text: String,
    parsed: Option<Vec<Detection>>,
    threshold: Binary32,
)
    requires
        forall|i: int| 0 <= i < text@.len() ==> is_white_space(#[trigger] text@[i]),
    ensures
        detect_outcome(WorkerReply::Line { text, parsed }, threshold) == Ok::<
            Seq<Detection>,
            CameraError,
        >(Seq::empty()),
{
    lemma_blank_trims_to_nothing(text@);
}

/// The link that results from spawning the worker.
pub open spec fn started(spawn: SpawnOutcome) -> Result<LinkState, CameraError> {
    match spawn {
        SpawnOutcome::Failed => Err(CameraError::SpawnFailed),
        SpawnOutcome::Spawned { stdin, stdout } => if !stdin {
            Err(CameraError::StdinCapture)
        } else if !stdout {
            Err(CameraError::StdoutCapture)
        } else {
            Ok(LinkState { process: true, stdin: true, stdout: true })
        },
    }
}

/// The payload of a response line: the line without the whitespace around
/// it, or `None` where nothing is left, which stands for no detections.
pub fn response_payload(line: &str) -> (payload: Option<&str>)
    ensures
        payload is None <==> trimmed(line@).len() == 0,
        payload matches Some(text) ==> text@ == trimmed(line@),
{
    let text = trim(line);
    if text.is_empty() {
        None
    } else {
        Some(text)
    }
}

/// The link to the detection worker. The caller owns the process and its
/// pipes; the link keeps account of them and decides what each exchange
/// yields. It is not reentrant: one request is answered before the next.
pub struct CameraController {
    config: CameraConfig,
    link: LinkState,
}

impl CameraController {
    /// The configuration that the link was made with.
    pub closed spec fn config(&self) -> CameraConfig {
        self.config
    }

    /// The handles that the link holds.
    pub closed spec fn link(&self) -> LinkState {
        self.link
    }

    /// A link to the worker that was spawned with the outcome `spawn`. After
    /// `Ok` the caller waits [`WARMUP_SECS`] before the first request.
    pub fn new(config: CameraConfig, spawn: SpawnOutcome) -> (made: Result<
        CameraController,
        CameraError,
    >)
        ensures
            match started(spawn) {
                Ok(link) => made matches Ok(controller) && controller.config() == config
                    && controller.link() == link,
                Err(error) => made matches Err(e) && e == error,
            },
    {
        let mut controller = CameraController {
            config,
            link: LinkState { process: false, stdin: false, stdout: false },
        };
        match controller.start(spawn) {
            Ok(()) => Ok(controller),
            Err(error) => Err(error),
        }
    }

    /// Takes over the handles of a spawned worker.
    fn start(&mut self, spawn: SpawnOutcome) -> (done: Result<(), CameraError>)
        ensures
            final(self).config() == old(self).config(),
            match started(spawn) {
                Ok(link) => done is Ok && final(self).link() == link,
                Err(error) => done == Err::<(), CameraError>(error) && final(self).link() == old(
                    self,
                ).link(),
            },
    {
        match spawn {
            SpawnOutcome::Failed => Err(CameraError::SpawnFailed),
            SpawnOutcome::Spawned { stdin, stdout } => {
                if !stdin {
                    Err(CameraError::StdinCapture)
                } else if !stdout {
                    Err(CameraError::StdoutCapture)
                } else {
                    self.link = LinkState { process: true, stdin: true, stdout: true };
                    Ok(())
                }
            },
        }
    }

    /// The handles that the link holds.
    pub fn state(&self) -> (link: LinkState)
        ensures
            link == self.link(),
    {
        self.link
    }

    /// Whether a request can be made, and with which timeout.
    pub open spec fn request(&self) -> Result<u64, CameraError> {
        if !self.link().stdin {
            Err(CameraError::StdinUnavailable)
        } else if !self.link().stdout {
            Err(CameraError::StdoutUnavailable)
        } else {
            Ok(self.config().inference_timeout)
        }
    }

    /// Opens one exchange. After `Ok(timeout)` the caller writes
    /// [`DETECT_COMMAND`], waits up to `timeout` seconds for one line and
    /// hands what came of it to [`CameraController::detect`].
    pub fn begin_detect(&self) -> (timeout: Result<u64, CameraError>)
        ensures
            timeout == self.request(),
    {
        if !self.link.stdin {
            Err(CameraError::StdinUnavailable)
        } else if !self.link.stdout {
            Err(CameraError::StdoutUnavailable)
        } else {
            Ok(self.config.inference_timeout)
        }
    }

    /// Closes one exchange. A line of nothing but whitespace is an empty
    /// list, never an error; detections are filtered by the configured
    /// threshold; every failure is reported as its error. The link itself is
    /// left as it was, so that a request that timed out or failed can be
    /// followed by another.
    pub fn detect(&mut self, reply: WorkerReply) -> (result: Result<Vec<Detection>, CameraError>)
        ensures
            listing(result) == detect_outcome(reply, old(self).config().detection_threshold),
            *final(self) == *old(self),
    {
        match reply {
            WorkerReply::SendFailed => Err(CameraError::SendFailed),
            WorkerReply::TimedOut => Err(CameraError::Timeout),
            WorkerReply::ReadFailed => Err(CameraError::ReadFailed),
            WorkerReply::Line { text, parsed } => {
                if response_payload(text.as_str()).is_none() {
                    Ok(Vec::new())
                } else {
                    match parsed {
                        None => Err(CameraError::ParseFailed),
                        Some(found) => Ok(
                            filter_detections(found, self.config.detection_threshold),
                        ),
                    }
                }
            },
        }
    }

    /// Gives up the input pipe and the process, and says what the caller is
    /// to do with them.
    pub fn shutdown(&mut self) -> (plan: ShutdownPlan)
        ensures
            plan.send_exit == old(self).link().stdin,
            plan.await_exit == old(self).link().process,
            final(self).config() == old(self).config(),
            final(self).link() == (LinkState {
                process: false,
                stdin: false,
                stdout: old(self).link().stdout,
            }),
    {
        let plan = ShutdownPlan { send_exit: self.link.stdin, await_exit: self.link.process };
        self.link = LinkState { process: false, stdin: false, stdout: self.link.stdout };
        plan
    }

    /// The result of a shutdown whose wait for the worker's exit ended with
    /// `outcome`.
    pub fn finish_shutdown(&self, outcome: ExitOutcome) -> (done: Result<(), CameraError>)
        ensures
            done == match outcome {
                ExitOutcome::Exited => Ok::<(), CameraError>(()),
                ExitOutcome::TimedOut => Err(CameraError::ShutdownTimeout),
                ExitOutcome::WaitFailed => Err(CameraError::WaitFailed),
            },
    {
        match outcome {
            ExitOutcome::Exited => Ok(()),
            ExitOutcome::TimedOut => Err(CameraError::ShutdownTimeout),
            ExitOutcome::WaitFailed => Err(CameraError::WaitFailed),
        }
    }
}

} // verus!
