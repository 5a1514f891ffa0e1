use visionvoice::binary32::Binary32;
use visionvoice::camera_controller::{
    filter_detections, response_payload, BoundingBox, CameraController, CameraError, Detection,
    ExitOutcome, LinkState, ShutdownPlan, SpawnOutcome, WorkerReply, DETECT_COMMAND, EXIT_COMMAND,
    SHUTDOWN_TIMEOUT_SECS, WARMUP_SECS,
};
use visionvoice::config::CameraConfig;

fn number(value: f32) -> Binary32 {
    Binary32::from_bits(value.to_bits())
}

fn config(threshold: f32) -> CameraConfig {
    CameraConfig {
        width: 640,
        height: 480,
        model: String::from("mobilenet"),
        detection_threshold: number(threshold),
        inference_timeout: 5,
        frame_skip: 2,
        preview_size: vec![320, 240],
    }
}

fn detection(label: &str, confidence: f32) -> Detection {
    Detection {
        label: String::from(label),
        confidence: number(confidence),
        bbox: BoundingBox { x: number(0.1), y: number(0.2), width: number(0.3), height: number(0.4) },
    }
}

fn link(threshold: f32) -> CameraController {
    CameraController::new(config(threshold), SpawnOutcome::Spawned { stdin: true, stdout: true }).unwrap()
}

fn line(text: &str, parsed: Option<Vec<Detection>>) -> WorkerReply {
    WorkerReply::Line { text: String::from(text), parsed }
}

#[test]
fn filter_keeps_exactly_the_confident_detections_in_order() {
    let found = vec![
        detection("person", 0.9),
        detection("car", 0.3),
        detection("dog", 0.5),
        detection("cat", 0.49999997),
        detection("bird", 1.0),
        detection("person", 0.9),
    ];
    let kept = filter_detections(found, number(0.5));
    assert_eq!(
        kept,
        vec![detection("person", 0.9), detection("dog", 0.5), detection("bird", 1.0), detection("person", 0.9)]
    );
}

#[test]
fn filter_agrees_with_the_comparison_of_the_hardware() {
    let values = [0.0f32, -0.0, 0.25, 0.5, 0.75, 1.0, -1.0, f32::NAN, f32::INFINITY];
    for threshold in values {
        let found: Vec<Detection> = values.iter().map(|c| detection("x", *c)).collect();
        let kept = filter_detections(found, number(threshold));
        let expected: Vec<Detection> =
            values.iter().filter(|c| **c >= threshold).map(|c| detection("x", *c)).collect();
        assert_eq!(kept, expected, "threshold {:?}", threshold);
    }
}

#[test]
fn filter_of_nothing_is_nothing() {
    assert_eq!(filter_detections(Vec::new(), number(0.5)), Vec::new());
}

#[test]
fn filter_drops_a_detection_that_is_not_a_number() {
    let kept = filter_detections(vec![detection("ghost", f32::NAN)], number(0.0));
    assert!(kept.is_empty());
}

#[test]
fn filter_with_a_threshold_that_is_not_a_number_keeps_nothing() {
    let kept = filter_detections(vec![detection("person", 1.0)], number(f32::NAN));
    assert!(kept.is_empty());
}

#[test]
fn payload_is_the_line_without_the_whitespace_around_it() {
    assert_eq!(response_payload("  [{\"label\": \"cat\"}] \r\n"), Some("[{\"label\": \"cat\"}]"));
    assert_eq!(response_payload("[]"), Some("[]"));
    assert_eq!(response_payload("[]\n"), Some("[]"));
}

#[test]
fn payload_of_a_blank_line_is_none() {
    assert_eq!(response_payload(""), None);
    assert_eq!(response_payload("\n"), None);
    assert_eq!(response_payload(" \t \r\n"), None);
}

#[test]
fn detect_on_an_empty_line_is_an_empty_list() {
    let mut link = link(0.5);
    assert_eq!(link.detect(line("", None)), Ok(Vec::new()));
    assert_eq!(link.detect(line("\n", None)), Ok(Vec::new()));
    assert_eq!(link.detect(line("  \r\n", None)), Ok(Vec::new()));
    // whatever the caller made of the blank line
    assert_eq!(link.detect(line("\n", Some(vec![detection("person", 0.9)]))), Ok(Vec::new()));
}

#[test]
fn detect_filters_by_the_configured_threshold() {
    let mut link = link(0.6);
    let found = vec![detection("person", 0.59), detection("car", 0.6), detection("dog", 0.95)];
    assert_eq!(
        link.detect(line("[...]\n", Some(found))),
        Ok(vec![detection("car", 0.6), detection("dog", 0.95)])
    );
}

#[test]
fn detect_reports_a_line_that_does_not_parse() {
    let mut link = link(0.5);
    assert_eq!(link.detect(line("not json\n", None)), Err(CameraError::ParseFailed));
}

#[test]
fn detect_reports_each_failure_of_the_exchange() {
    let mut link = link(0.5);
    assert_eq!(link.detect(WorkerReply::SendFailed), Err(CameraError::SendFailed));
    assert_eq!(link.detect(WorkerReply::TimedOut), Err(CameraError::Timeout));
    assert_eq!(link.detect(WorkerReply::ReadFailed), Err(CameraError::ReadFailed));
}

#[test]
fn detect_after_a_timeout_leaves_the_link_usable() {
    let mut link = link(0.5);
    assert_eq!(link.begin_detect(), Ok(5));
    assert_eq!(link.detect(WorkerReply::TimedOut), Err(CameraError::Timeout));
    assert_eq!(link.state(), LinkState { process: true, stdin: true, stdout: true });
    assert_eq!(link.begin_detect(), Ok(5));
    assert_eq!(
        link.detect(line("[...]", Some(vec![detection("cat", 0.8)]))),
        Ok(vec![detection("cat", 0.8)])
    );
}

#[test]
fn new_fails_when_the_worker_cannot_be_spawned_or_its_pipes_captured() {
    assert_eq!(CameraController::new(config(0.5), SpawnOutcome::Failed).err(), Some(CameraError::SpawnFailed));
    assert_eq!(
        CameraController::new(config(0.5), SpawnOutcome::Spawned { stdin: false, stdout: true }).err(),
        Some(CameraError::StdinCapture)
    );
    assert_eq!(
        CameraController::new(config(0.5), SpawnOutcome::Spawned { stdin: false, stdout: false }).err(),
        Some(CameraError::StdinCapture)
    );
    assert_eq!(
        CameraController::new(config(0.5), SpawnOutcome::Spawned { stdin: true, stdout: false }).err(),
        Some(CameraError::StdoutCapture)
    );
}

#[test]
fn new_holds_all_handles_of_a_spawned_worker() {
    let link = link(0.5);
    assert_eq!(link.state(), LinkState { process: true, stdin: true, stdout: true });
    assert_eq!(link.begin_detect(), Ok(5));
}

#[test]
fn shutdown_gives_up_the_input_pipe_and_the_process() {
    let mut link = link(0.5);
    assert_eq!(link.shutdown(), ShutdownPlan { send_exit: true, await_exit: true });
    assert_eq!(link.state(), LinkState { process: false, stdin: false, stdout: true });
    assert_eq!(link.begin_detect(), Err(CameraError::StdinUnavailable));
    // a second shutdown has nothing left to do
    assert_eq!(link.shutdown(), ShutdownPlan { send_exit: false, await_exit: false });
}

#[test]
fn finish_shutdown_reports_a_worker_that_does_not_exit() {
    let link = link(0.5);
    assert_eq!(link.finish_shutdown(ExitOutcome::Exited), Ok(()));
    assert_eq!(link.finish_shutdown(ExitOutcome::TimedOut), Err(CameraError::ShutdownTimeout));
    assert_eq!(link.finish_shutdown(ExitOutcome::WaitFailed), Err(CameraError::WaitFailed));
}

#[test]
fn protocol_tokens_are_single_lines() {
    assert_eq!(DETECT_COMMAND, "detect\n");
    assert_eq!(EXIT_COMMAND, "exit\n");
    assert_eq!(WARMUP_SECS, 3);
    assert_eq!(SHUTDOWN_TIMEOUT_SECS, 10);
}
