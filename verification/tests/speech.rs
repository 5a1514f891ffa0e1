use visionvoice::config::TtsConfig;
use visionvoice::tts_controller::{
    truncate_phrase, Announcement, SpeechError, TtsController, WorkerOutcome,
};

fn config(limit: usize) -> TtsConfig {
    TtsConfig {
        model_path: String::from("models/voice.onnx"),
        sample_rate: 22050,
        buffer_size: 4096,
        max_phrase_length: limit,
        priority_phrases: vec![String::from("Внимание")],
    }
}

fn arbiter(limit: usize) -> TtsController {
    TtsController::new(config(limit)).unwrap()
}

#[test]
fn truncate_leaves_a_short_phrase_alone() {
    assert_eq!(truncate_phrase("hello", 5), "hello");
    assert_eq!(truncate_phrase("hello", 100), "hello");
    assert_eq!(truncate_phrase("", 0), "");
}

#[test]
fn truncate_cuts_at_the_byte_limit() {
    assert_eq!(truncate_phrase("hello world", 5), "hello");
    assert_eq!(truncate_phrase("hello", 0), "");
    assert_eq!(truncate_phrase("hello", 4), "hell");
}

#[test]
fn truncate_never_splits_a_character() {
    // each of these letters takes two bytes
    assert_eq!(truncate_phrase("Привет", 4), "Пр");
    assert_eq!(truncate_phrase("Привет", 5), "Пр");
    assert_eq!(truncate_phrase("Привет", 1), "");
    assert_eq!(truncate_phrase("Привет", 12), "Привет");
    assert_eq!(truncate_phrase("Привет", 11), "Приве");
    // three and four bytes
    assert_eq!(truncate_phrase("a€b", 3), "a");
    assert_eq!(truncate_phrase("a€b", 4), "a€");
    assert_eq!(truncate_phrase("😀!", 3), "");
    assert_eq!(truncate_phrase("😀!", 4), "😀");
}

#[test]
fn truncate_agrees_with_slicing_at_a_boundary() {
    let text = "Обнаружен человек";
    for limit in 0..=text.len() + 2 {
        let cut = truncate_phrase(text, limit);
        assert!(cut.len() <= limit);
        assert!(text.starts_with(cut));
        if limit < text.len() && text.is_char_boundary(limit) {
            assert_eq!(cut, &text[..limit]);
        }
        if limit >= text.len() {
            assert_eq!(cut, text);
        }
    }
}

#[test]
fn speak_builds_the_invocation_from_the_configuration() {
    let arbiter = arbiter(9);
    let request = arbiter.speak("hello world").unwrap();
    assert_eq!(request.model_path, "models/voice.onnx");
    assert_eq!(request.sample_rate, 22050);
    assert_eq!(request.text, "hello wor");
    assert!(!request.priority);
}

#[test]
fn speak_while_speaking_is_dropped() {
    let arbiter = arbiter(100);
    let first = arbiter.speak("one").unwrap();
    assert!(arbiter.speak("two").is_none());
    assert!(arbiter.speak("three").is_none());
    assert_eq!(arbiter.finish(&first, WorkerOutcome::Exited { success: true }), Ok(()));
    assert_eq!(arbiter.speak("four").unwrap().text, "four");
}

#[test]
fn speak_priority_is_never_dropped() {
    let arbiter = arbiter(100);
    let routine = arbiter.speak("one").unwrap();
    let alert = arbiter.speak_priority("alert");
    assert_eq!(alert.text, "alert");
    assert!(alert.priority);
    let again = arbiter.speak_priority("again");
    assert_eq!(again.text, "again");
    // a priority message neither sets nor clears the flag
    assert_eq!(arbiter.finish(&alert, WorkerOutcome::Exited { success: true }), Ok(()));
    assert!(arbiter.speak("two").is_none());
    assert_eq!(arbiter.finish(&routine, WorkerOutcome::Exited { success: true }), Ok(()));
    assert!(arbiter.speak("three").is_some());
}

#[test]
fn speak_priority_does_not_block_routine_messages() {
    let arbiter = arbiter(100);
    let _alert = arbiter.speak_priority("alert");
    assert!(arbiter.speak("routine").is_some());
}

#[test]
fn speak_priority_truncates_too() {
    let arbiter = arbiter(10);
    assert_eq!(arbiter.speak_priority("Критически низкий заряд").text, "Крити");
}

#[test]
fn finish_clears_the_flag_even_when_the_worker_failed() {
    let arbiter = arbiter(100);
    let first = arbiter.speak("one").unwrap();
    assert_eq!(arbiter.finish(&first, WorkerOutcome::Exited { success: false }), Ok(()));
    let second = arbiter.speak("two").unwrap();
    assert_eq!(arbiter.finish(&second, WorkerOutcome::LaunchFailed), Err(SpeechError::LaunchFailed));
    assert!(arbiter.speak("three").is_some());
}

#[test]
fn arbitrate_drops_only_routine_messages_while_speaking() {
    let arbiter = arbiter(100);
    assert!(arbiter.arbitrate(true, false, "x").is_none());
    assert!(arbiter.arbitrate(false, false, "x").is_some());
    assert!(arbiter.arbitrate(true, true, "x").is_some());
    assert!(arbiter.arbitrate(false, true, "x").is_some());
    assert!(arbiter.arbitrate(true, true, "x").unwrap().priority);
}

#[test]
fn announce_sends_alerts_with_priority() {
    let arbiter = arbiter(200);
    let started = arbiter.announce(Announcement::SystemStarted).unwrap();
    assert_eq!(started.text, "Система запущена");
    assert!(!started.priority);
    // the start-up message is still being spoken
    assert!(arbiter.announce(Announcement::BatteryLow).is_none());
    let critical = arbiter.announce(Announcement::BatteryCritical).unwrap();
    assert_eq!(critical.text, "Критически низкий заряд. Выключение.");
    assert!(critical.priority);
    let farewell = arbiter.announce(Announcement::ShuttingDown).unwrap();
    assert_eq!(farewell.text, "Выключение");
    assert!(farewell.priority);
    assert_eq!(arbiter.finish(&started, WorkerOutcome::Exited { success: true }), Ok(()));
    assert_eq!(arbiter.announce(Announcement::BatteryLow).unwrap().text, "Низкий заряд батареи");
}

#[test]
fn announcement_phrases() {
    assert_eq!(Announcement::SystemStarted.phrase(), "Система запущена");
    assert_eq!(Announcement::ShuttingDown.phrase(), "Выключение");
    assert_eq!(Announcement::BatteryLow.phrase(), "Низкий заряд батареи");
    assert_eq!(Announcement::BatteryCritical.phrase(), "Критически низкий заряд. Выключение.");
    assert!(!Announcement::SystemStarted.is_priority());
    assert!(Announcement::ShuttingDown.is_priority());
    assert!(!Announcement::BatteryLow.is_priority());
    assert!(Announcement::BatteryCritical.is_priority());
}
