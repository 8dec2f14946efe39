//! Tests for message classification and the per-iteration loop step.

use g935::buttons::MicArm;
use g935::config::Config;
use g935::event_loop::classify;
use g935::event_loop::Classification;
use g935::event_loop::EventLoopState;
use g935::event_loop::LoopAction;
use g935::event_loop::POLL_TIMEOUT_MS;
use g935::event_loop::RESET_COUNTER_AFTER;
use g935::event_loop::RESET_TIME_SEC;
use g935::power_state::PowerState;

const GKEY: u8 = 0x07;
const BATTERY: u8 = 0x06;

type TestConfig = Config<u32, u32, u32>;

fn battery_frame(payload: &[u8]) -> Vec<u8> {
    let mut frame = vec![0x11, 0xff, BATTERY, 0x00];
    frame.extend_from_slice(payload);
    frame
}

#[test]
fn classification_of_known_shapes() {
    assert_eq!(classify(&Vec::new(), GKEY, BATTERY), Classification::Idle);
    assert_eq!(classify(&vec![0x08, 0x10], GKEY, BATTERY), Classification::MicArmChange);
    assert_eq!(classify(&vec![0x08, 0x20], GKEY, BATTERY), Classification::MicArmChange);
    assert_eq!(classify(&vec![0x08, 0x01], GKEY, BATTERY), Classification::MuteButton);
    assert_eq!(
        classify(&vec![0x11, 0xff, GKEY, 0x00, 0x01], GKEY, BATTERY),
        Classification::ButtonReport
    );
    assert_eq!(
        classify(&vec![0x01, 0x02, 0x00, 0x00, 0x00], GKEY, BATTERY),
        Classification::WheelReport
    );
    assert_eq!(classify(&battery_frame(&[0, 0, 0]), GKEY, BATTERY), Classification::PowerReport);
    assert_eq!(classify(&vec![0x99, 0x99], GKEY, BATTERY), Classification::Unrecognized);
    // A feature-addressed frame for some other feature index.
    assert_eq!(
        classify(&vec![0x11, 0xff, 0x55, 0x00, 0x01], GKEY, BATTERY),
        Classification::Unrecognized
    );
}

#[test]
fn buttons_feature_wins_over_battery_on_index_collision() {
    let frame = vec![0x11, 0xff, 0x05, 0x00, 0x01];
    assert_eq!(classify(&frame, 0x05, 0x05), Classification::ButtonReport);
}

#[test]
fn idle_polls_count_up_and_trigger_repush() {
    // Two consecutive idle polls with the counter already at the threshold:
    // the second one must ask for the unconditional re-push of the
    // buttons-enabled flag and both light effects.
    let mut state = EventLoopState::new();
    let mut config = TestConfig::new();
    let idle: Option<Vec<u8>> = Some(Vec::new());

    let first = state.step(&mut config, &idle, GKEY, BATTERY, 1);
    assert_eq!(first, LoopAction::Nothing);
    assert_eq!(state.counter, 1);

    let second = state.step(&mut config, &idle, GKEY, BATTERY, 1);
    assert_eq!(second, LoopAction::Repush);
    assert_eq!(state.counter, 0);
}

#[test]
fn non_idle_messages_do_not_advance_the_idle_counter() {
    let mut state = EventLoopState::new();
    let mut config = TestConfig::new();
    let idle: Option<Vec<u8>> = Some(Vec::new());
    let _ = state.step(&mut config, &idle, GKEY, BATTERY, 5);
    assert_eq!(state.counter, 1);
    let _ = state.step(&mut config, &Some(vec![0x08, 0x10]), GKEY, BATTERY, 5);
    assert_eq!(state.counter, 1);
}

#[test]
fn mic_arm_change_updates_snapshot_and_dispatches() {
    let mut state = EventLoopState::new();
    let mut config = TestConfig::new();
    let action = state.step(&mut config, &Some(vec![0x08, 0x20]), GKEY, BATTERY, 40);
    assert_eq!(state.button_state.mic_arm, MicArm::Down);
    match action {
        LoopAction::CallButtonHandler(bs) => assert_eq!(bs, state.button_state),
        other => panic!("expected a button dispatch, got {:?}", other),
    }
}

#[test]
fn malformed_mic_arm_frame_not_dispatched() {
    // 0x30 is not a valid position byte: the frame matches no known shape,
    // so it is logged, never dispatched, and nothing crashes; the retained
    // snapshot keeps the arm up.
    let mut state = EventLoopState::new();
    let mut config = TestConfig::new();
    let action = state.step(&mut config, &Some(vec![0x08, 0x30]), GKEY, BATTERY, 40);
    assert_eq!(action, LoopAction::LogUnrecognized);
    assert_eq!(state.button_state.mic_arm, MicArm::Up);
}

#[test]
fn mute_press_dispatches_transient_flag() {
    let mut state = EventLoopState::new();
    let mut config = TestConfig::new();
    let action = state.step(&mut config, &Some(vec![0x08, 0x01]), GKEY, BATTERY, 40);
    match action {
        LoopAction::CallButtonHandler(bs) => assert!(bs.mute_button),
        other => panic!("expected a button dispatch, got {:?}", other),
    }
    // The retained snapshot does not keep the transient flag.
    assert!(!state.button_state.mute_button);
}

#[test]
fn button_report_updates_keys() {
    let mut state = EventLoopState::new();
    let mut config = TestConfig::new();
    let frame = vec![0x11, 0xff, GKEY, 0x00, 0x06];
    let action = state.step(&mut config, &Some(frame), GKEY, BATTERY, 40);
    assert!(!state.button_state.buttons.g1);
    assert!(state.button_state.buttons.g2);
    assert!(state.button_state.buttons.g3);
    assert!(matches!(action, LoopAction::CallButtonHandler(_)));
}

#[test]
fn wheel_report_updates_wheel() {
    let mut state = EventLoopState::new();
    let mut config = TestConfig::new();
    let frame = vec![0x01, 0x01, 0x00, 0x00, 0x00];
    let action = state.step(&mut config, &Some(frame), GKEY, BATTERY, 40);
    assert!(state.button_state.wheel.up);
    assert!(!state.button_state.wheel.down);
    assert!(matches!(action, LoopAction::CallButtonHandler(_)));
}

#[test]
fn all_zero_battery_push_means_disconnected() {
    let mut state = EventLoopState::new();
    let mut config = TestConfig::new();
    let _ = config.sync_plan();
    let action = state.step(&mut config, &Some(battery_frame(&[0, 0, 0, 0])), GKEY, BATTERY, 40);
    assert_eq!(action, LoopAction::CallPowerHandler(PowerState::Disconnected));
    // A disconnect does not force a resync.
    assert_eq!(config.sync_plan().buttons, None);
}

#[test]
fn reconnect_push_marks_whole_config_dirty() {
    let mut state = EventLoopState::new();
    let mut config = TestConfig::new();
    let _ = config.sync_plan();
    let action = state.step(&mut config, &Some(battery_frame(&[0, 1, 0, 0])), GKEY, BATTERY, 40);
    assert_eq!(action, LoopAction::CallPowerHandler(PowerState::Connected));
    let plan = config.sync_plan();
    assert!(plan.buttons.is_some());
    assert!(plan.side.is_some());
    assert!(plan.logo.is_some());
}

#[test]
fn no_message_changes_nothing() {
    let mut state = EventLoopState::new();
    let mut config = TestConfig::new();
    let action = state.step(&mut config, &None, GKEY, BATTERY, 40);
    assert_eq!(action, LoopAction::Nothing);
    assert_eq!(state.counter, 0);
}

#[test]
fn loop_constants() {
    assert_eq!(POLL_TIMEOUT_MS, 500);
    assert_eq!(RESET_TIME_SEC, 20);
    assert_eq!(RESET_COUNTER_AFTER, RESET_TIME_SEC * 1000 / POLL_TIMEOUT_MS);
}
