//! Arbitration of spoken messages. Routine messages are dropped while another
//! one is being spoken; priority messages are always attempted.

use std::sync::atomic::{AtomicBool, Ordering};
use vstd::prelude::*;
use vstd::string::*;
use vstd::utf8::*;
use crate::config::TtsConfig;

verus! {

broadcast use {
    encode_utf8_valid_utf8,
    encode_utf8_decode_utf8,
    is_char_boundary_start_end_of_seq,
};

/// The last character boundary of `bytes` at or before `limit`.
pub open spec fn boundary_before(bytes: Seq<u8>, limit: int) -> int
    decreases limit,
{
    if limit <= 0 {
        0
    } else if is_char_boundary(bytes, limit) {
        limit
    } else {
        boundary_before(bytes, limit - 1)
    }
}

/// The longest prefix of `text` made of whole characters whose UTF-8 encoding
/// takes at most `limit` bytes.
pub open spec fn truncated(text: Seq<char>, limit: nat) -> Seq<char> {
    let bytes = encode_utf8(text);
    if bytes.len() <= limit {
        text
    } else {
        decode_utf8(bytes.subrange(0, boundary_before(bytes, limit as int)))
    }
}

/// The last character boundary at or before `limit` is a character boundary
/// within the text, and none lies between it and `limit`.
proof fn lemma_boundary_before(bytes: Seq<u8>, limit: int)
    requires
        valid_utf8(bytes),
        0 <= limit <= bytes.len(),
    ensures
        0 <= boundary_before(bytes, limit) <= limit,
        is_char_boundary(bytes, boundary_before(bytes, limit)),
        forall|k: int|
            boundary_before(bytes, limit) < k <= limit ==> !is_char_boundary(bytes, k),
    decreases limit,
{
    if limit > 0 && !is_char_boundary(bytes, limit) {
        lemma_boundary_before(bytes, limit - 1);
    }
}

/// Truncation keeps a beginning of the text, and what it keeps fits the
/// limit.
pub proof fn law_truncated_is_prefix(text: Seq<char>, limit: nat)
    ensures
        truncated(text, limit).is_prefix_of(text),
        encode_utf8(truncated(text, limit)).len() <= limit,
        encode_utf8(text).len() <= limit ==> truncated(text, limit) == text,
{
    let bytes = encode_utf8(text);
    if bytes.len() > limit {
        lemma_boundary_before(bytes, limit as int);
        let cut = boundary_before(bytes, limit as int);
        decode_utf8_split(bytes, cut);
        valid_utf8_split(bytes, cut);
        decode_utf8_encode_utf8(bytes.subrange(0, cut));
        assert(text =~= truncated(text, limit) + decode_utf8(
            bytes.subrange(cut, bytes.len() as int),
        ));
    }
}

/// The encoding of a text in two parts is the encoding of the first part
/// followed by that of the second.
proof fn lemma_encode_concat(head: Seq<char>, tail: Seq<char>)
    ensures
        encode_utf8(head + tail) == encode_utf8(head) + encode_utf8(tail),
    decreases head.len(),
{
    if head.len() == 0 {
        assert(head + tail =~= tail);
        assert(encode_utf8(head) + encode_utf8(tail) =~= encode_utf8(tail));
    } else {
        assert((head + tail).drop_first() =~= head.drop_first() + tail);
        lemma_encode_concat(head.drop_first(), tail);
    }
}

/// Where the encoding of the first part of a text ends, a character of the
/// whole begins.
proof fn lemma_boundary_between(head: Seq<char>, tail: Seq<char>)
    ensures
        is_char_boundary(encode_utf8(head + tail), encode_utf8(head).len() as int),
    decreases head.len(),
{
    let whole = encode_utf8(head + tail);
    if head.len() > 0 {
        encode_utf8_first_scalar(head + tail);
        assert((head + tail).drop_first() =~= head.drop_first() + tail);
        assert(pop_first_scalar(whole) =~= encode_utf8(head.drop_first() + tail));
        lemma_boundary_between(head.drop_first(), tail);
    }
}

/// Truncation keeps as much as fits: a longer beginning of the text takes
/// more than `limit` bytes.
pub proof fn law_truncated_is_longest(text: Seq<char>, limit: nat, longer: int)
    requires
        truncated(text, limit).len() < longer <= text.len(),
    ensures
        encode_utf8(text.take(longer)).len() > limit,
{
    let bytes = encode_utf8(text);
    law_truncated_is_prefix(text, limit);
    let kept = truncated(text, limit);
    let head = text.take(longer);
    let tail = text.skip(longer);
    let extra = head.skip(kept.len() as int);
    assert(text =~= head + tail);
    assert(head =~= kept + extra);
    lemma_encode_concat(head, tail);
    lemma_encode_concat(kept, extra);
    lemma_boundary_between(head, tail);
    assert(encode_utf8(extra).len() > 0) by {
        assert(encode_scalar(extra[0] as u32).len() > 0);
    }
    lemma_boundary_before(bytes, limit as int);
    let cut = boundary_before(bytes, limit as int);
    valid_utf8_split(bytes, cut);
    decode_utf8_encode_utf8(bytes.subrange(0, cut));
}

/// Cuts `text` down to at most `limit` bytes without splitting a character.
pub fn truncate_phrase(text: &str, limit: usize) -> (phrase: &str)
    ensures
        phrase@ == truncated(text@, limit as nat),
        phrase@.is_prefix_of(text@),
        phrase.spec_bytes().len() <= limit,
{
    proof {
        law_truncated_is_prefix(text@, limit as nat);
    }
    if text.as_bytes().len() <= limit {
        return text;
    }
    let ghost bytes = text.spec_bytes();
    let mut end: usize = limit;
    while !text.is_char_boundary(end)
        invariant
            bytes == text.spec_bytes(),
            valid_utf8(bytes),
            end <= limit < bytes.len(),
            boundary_before(bytes, end as int) == boundary_before(bytes, limit as int),
        decreases end,
    {
        end = end - 1;
    }
    let (phrase, _) = text.split_at(end);
    proof {
        assert(decode_utf8(encode_utf8(phrase@)) == phrase@);
    }
    phrase
}

/// One invocation of the speech worker.
#[derive(Debug, Clone)]
pub struct SpeechRequest {
    pub model_path: String,
    pub sample_rate: u32,
    /// The phrase to speak, already truncated.
    pub text: String,
    /// Whether the request bypassed the busy flag.
    pub priority: bool,
}

/// A [`SpeechRequest`] as plain values.
pub struct SpeechRequestView {
    pub model_path: Seq<char>,
    pub sample_rate: u32,
    pub text: Seq<char>,
    pub priority: bool,
}

impl View for SpeechRequest {
    type V = SpeechRequestView;

    open spec fn view(&self) -> SpeechRequestView {
        SpeechRequestView {
            model_path: self.model_path@,
            sample_rate: self.sample_rate,
            text: self.text@,
            priority: self.priority,
        }
    }
}

/// How one invocation of the speech worker ended.
#[derive(Debug, Clone, Copy, PartialEq, Eq, Structural)]
pub enum WorkerOutcome {
    /// The worker could not be launched.
    LaunchFailed,
    /// The worker ran and exited, successfully or not.
    Exited { success: bool },
}

/// Why an announcement failed.
#[derive(Debug, Clone, Copy, PartialEq, Eq, Structural)]
pub enum SpeechError {
    /// The speech worker could not be launched.
    LaunchFailed,
}

/// Whether an announcement is let through: a priority one always, a routine
/// one only while nothing is being spoken.
pub open spec fn admits(speaking: bool, priority: bool) -> bool {
    priority || !speaking
}

/// The announcement arbiter. Its busy flag is a hint shared between tasks:
/// readers tolerate a stale value.
pub struct TtsController {
    config: TtsConfig,
    is_speaking: AtomicBool,
}

impl TtsController {
    /// The configuration that the controller was made with.
    pub closed spec fn config(&self) -> TtsConfig {
        self.config
    }

    /// The invocation that speaks `text`.
    pub open spec fn request_for(&self, text: Seq<char>, priority: bool) -> SpeechRequestView {
        SpeechRequestView {
            model_path: self.config().model_path@,
            sample_rate: self.config().sample_rate,
            text: truncated(text, self.config().max_phrase_length as nat),
            priority,
        }
    }

    /// An idle arbiter.
    pub fn new(config: TtsConfig) -> (made: Result<TtsController, SpeechError>)
        ensures
            made matches Ok(controller) && controller.config() == config,
    {
        Ok(TtsController { config, is_speaking: AtomicBool::new(false) })
    }

    /// Reads the busy flag.
    fn is_speaking(&self) -> bool {
        self.is_speaking.load(Ordering::Relaxed)
    }

    /// Writes the busy flag.
    fn set_speaking(&self, speaking: bool) {
        self.is_speaking.store(speaking, Ordering::Relaxed)
    }

    /// Decides on one announcement, given the value read from the busy flag:
    /// the invocation to make, or `None` where the message is dropped.
    pub fn arbitrate(&self, speaking: bool, priority: bool, text: &str) -> (decision: Option<
        SpeechRequest,
    >)
        ensures
            decision is Some <==> admits(speaking, priority),
            decision matches Some(request) ==> request@ == self.request_for(text@, priority),
    {
        if speaking && !priority {
            None
        } else {
            Some(self.speak_internal(text, priority))
        }
    }

    /// Announces a routine message unless another one is being spoken. A
    /// returned request is to be carried out and then reported with
    /// [`TtsController::finish`]; `None` means the message was dropped.
    pub fn speak(&self, text: &str) -> (decision: Option<SpeechRequest>)
        ensures
            decision matches Some(request) ==> request@ == self.request_for(text@, false),
    {
        let speaking = self.is_speaking();
        let decision = self.arbitrate(speaking, false, text);
        if decision.is_some() {
            self.set_speaking(true);
        }
        decision
    }

    /// Announces a critical message. It is never dropped and leaves the busy
    /// flag alone.
    pub fn speak_priority(&self, text: &str) -> (request: SpeechRequest)
        ensures
            request@ == self.request_for(text@, true),
    {
        self.speak_internal(text, true)
    }

    /// Builds the invocation for `text`.
    fn speak_internal(&self, text: &str, priority: bool) -> (request: SpeechRequest)
        ensures
            request@ == self.request_for(text@, priority),
    {
        let phrase = truncate_phrase(text, self.config.max_phrase_length);
        SpeechRequest {
            model_path: self.config.model_path.clone(),
            sample_rate: self.config.sample_rate,
            text: String::from_str(phrase),
            priority,
        }
    }

    /// Takes note of how the invocation for `request` ended. The busy flag is
    /// cleared for a routine request whatever the outcome. A worker that ran
    /// and failed is no error; one that could not be launched is.
    pub fn finish(&self, request: &SpeechRequest, outcome: WorkerOutcome) -> (done: Result<
        (),
        SpeechError,
    >)
        ensures
            done == finished(outcome),
    {
        if !request.priority {
            self.set_speaking(false);
        }
        match outcome {
            WorkerOutcome::LaunchFailed => Err(SpeechError::LaunchFailed),
            WorkerOutcome::Exited { .. } => Ok(()),
        }
    }
}

/// The fixed messages of the controller.
#[derive(Debug, Clone, Copy, PartialEq, Eq, Structural)]
pub enum Announcement {
    /// The controller is up.
    SystemStarted,
    /// The controller is shutting down.
    ShuttingDown,
    /// The battery is low.
    BatteryLow,
    /// The battery is about to give out.
    BatteryCritical,
}

impl Announcement {
    /// The words of the message.
    pub open spec fn text(self) -> Seq<char> {
        match self {
            Announcement::SystemStarted => "Система запущена"@,
            Announcement::ShuttingDown => "Выключение"@,
            Announcement::BatteryLow => "Низкий заряд батареи"@,
            Announcement::BatteryCritical => "Критически низкий заряд. Выключение."@,
        }
    }

    /// Whether the message is a critical alert, which is never dropped.
    pub open spec fn urgent(self) -> bool {
        self is ShuttingDown || self is BatteryCritical
    }

    /// The words of the message.
    pub fn phrase(self) -> (words: &'static str)
        ensures
            words@ == self.text(),
    {
        match self {
            Announcement::SystemStarted => "Система запущена",
            Announcement::ShuttingDown => "Выключение",
            Announcement::BatteryLow => "Низкий заряд батареи",
            Announcement::BatteryCritical => "Критически низкий заряд. Выключение.",
        }
    }

    /// Whether the message is a critical alert.
    pub fn is_priority(self) -> (priority: bool)
        ensures
            priority == self.urgent(),
    {
        match self {
            Announcement::ShuttingDown | Announcement::BatteryCritical => true,
            _ => false,
        }
    }
}

impl TtsController {
    /// Announces one of the fixed messages: a critical alert with priority,
    /// any other as a routine message.
    pub fn announce(&self, message: Announcement) -> (decision: Option<SpeechRequest>)
        ensures
            message.urgent() ==> decision is Some,
            decision matches Some(request) ==> request@ == self.request_for(
                message.text(),
                message.urgent(),
            ),
    {
        if message.is_priority() {
            Some(self.speak_priority(message.phrase()))
        } else {
            self.speak(message.phrase())
        }
    }
}

/// The result of an announcement whose worker ended with `outcome`.
pub open spec fn finished(outcome: WorkerOutcome) -> Result<(), SpeechError> {
    match outcome {
        WorkerOutcome::LaunchFailed => Err(SpeechError::LaunchFailed),
        WorkerOutcome::Exited { .. } => Ok(()),
    }
}

} // verus!
