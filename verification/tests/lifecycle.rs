use visionvoice::orchestrator::{LifecycleAction, LifecycleEvent, Orchestrator, Phase};

const EVENTS: [LifecycleEvent; 4] = [
    LifecycleEvent::ControllersReady,
    LifecycleEvent::TerminationSignal,
    LifecycleEvent::DetectionTaskEnded,
    LifecycleEvent::TeardownFinished,
];

fn rank(phase: Phase) -> u8 {
    match phase {
        Phase::Starting => 0,
        Phase::Running => 1,
        Phase::ShuttingDown => 2,
        Phase::Stopped => 3,
    }
}

#[test]
fn the_controller_passes_through_its_phases_in_order() {
    let mut controller = Orchestrator::new(true);
    assert_eq!(controller.phase, Phase::Starting);
    assert_eq!(controller.handle(LifecycleEvent::ControllersReady), LifecycleAction::Launch { power_task: true });
    assert_eq!(controller.phase, Phase::Running);
    assert_eq!(
        controller.handle(LifecycleEvent::TerminationSignal),
        LifecycleAction::Teardown { cancel_power_task: true }
    );
    assert_eq!(controller.phase, Phase::ShuttingDown);
    assert_eq!(controller.handle(LifecycleEvent::TeardownFinished), LifecycleAction::Halt);
    assert_eq!(controller.phase, Phase::Stopped);
}

#[test]
fn the_end_of_the_detection_task_is_a_fault_that_shuts_down() {
    let mut controller = Orchestrator::new(false);
    assert_eq!(controller.handle(LifecycleEvent::ControllersReady), LifecycleAction::Launch { power_task: false });
    assert_eq!(
        controller.handle(LifecycleEvent::DetectionTaskEnded),
        LifecycleAction::Teardown { cancel_power_task: false }
    );
    assert_eq!(controller.phase, Phase::ShuttingDown);
}

#[test]
fn events_out_of_place_are_ignored() {
    let mut controller = Orchestrator::new(true);
    assert_eq!(controller.handle(LifecycleEvent::TerminationSignal), LifecycleAction::Ignore);
    assert_eq!(controller.handle(LifecycleEvent::TeardownFinished), LifecycleAction::Ignore);
    assert_eq!(controller.phase, Phase::Starting);
    controller.handle(LifecycleEvent::ControllersReady);
    assert_eq!(controller.handle(LifecycleEvent::ControllersReady), LifecycleAction::Ignore);
    controller.handle(LifecycleEvent::TerminationSignal);
    assert_eq!(controller.handle(LifecycleEvent::TerminationSignal), LifecycleAction::Ignore);
    assert_eq!(controller.handle(LifecycleEvent::DetectionTaskEnded), LifecycleAction::Ignore);
    controller.handle(LifecycleEvent::TeardownFinished);
    for event in EVENTS {
        assert_eq!(controller.handle(event), LifecycleAction::Ignore);
        assert_eq!(controller.phase, Phase::Stopped);
    }
}

#[test]
fn no_sequence_of_events_leads_back() {
    // every sequence of five events
    for code in 0..1024u32 {
        let mut controller = Orchestrator::new(true);
        let mut launches = 0;
        let mut teardowns = 0;
        let mut last = rank(controller.phase);
        for step in 0..5 {
            let event = EVENTS[((code >> (2 * step)) & 3) as usize];
            match controller.handle(event) {
                LifecycleAction::Launch { .. } => launches += 1,
                LifecycleAction::Teardown { .. } => teardowns += 1,
                _ => {}
            }
            let now = rank(controller.phase);
            assert!(last <= now && now <= last + 1);
            last = now;
        }
        assert!(launches <= 1 && teardowns <= 1);
    }
}
