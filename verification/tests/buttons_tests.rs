//! Tests for button-state decoding and edge detection.

use g935::buttons::ButtonState;
use g935::buttons::Buttons;
use g935::buttons::MicArm;
use g935::buttons::Wheel;

fn state_with_g1(g1: bool) -> ButtonState {
    ButtonState { buttons: Buttons { g1, g2: false, g3: false }, ..ButtonState::default() }
}

#[test]
fn g1_press_edge() {
    let old_state = state_with_g1(false);
    let new_state = state_with_g1(true);
    assert!(new_state.g1_pressed(&old_state));
    assert!(!new_state.g1_released(&old_state));
}

#[test]
fn g1_release_edge() {
    let old_state = state_with_g1(true);
    let new_state = state_with_g1(false);
    assert!(!new_state.g1_pressed(&old_state));
    assert!(new_state.g1_released(&old_state));
}

#[test]
fn g2_and_g3_edges() {
    let old_state = ButtonState::default();
    let g2_down = ButtonState {
        buttons: Buttons { g1: false, g2: true, g3: false },
        ..ButtonState::default()
    };
    let g3_down = ButtonState {
        buttons: Buttons { g1: false, g2: false, g3: true },
        ..ButtonState::default()
    };
    assert!(g2_down.g2_pressed(&old_state));
    assert!(!g2_down.g2_released(&old_state));
    assert!(old_state.g2_released(&g2_down));
    assert!(g3_down.g3_pressed(&old_state));
    assert!(old_state.g3_released(&g3_down));
}

#[test]
fn no_edge_without_change() {
    let held = state_with_g1(true);
    assert!(!held.g1_pressed(&held));
    assert!(!held.g1_released(&held));
}

#[test]
fn mic_flip_edges() {
    let up = ButtonState { mic_arm: MicArm::Up, ..ButtonState::default() };
    let down = ButtonState { mic_arm: MicArm::Down, ..ButtonState::default() };
    assert!(up.mic_flipped_up(&down));
    assert!(!up.mic_flipped_down(&down));
    assert!(down.mic_flipped_down(&up));
    assert!(!down.mic_flipped_up(&up));
    assert!(!up.mic_flipped_up(&up));
}

#[test]
fn scroll_flags_and_end() {
    let rest = ButtonState::default();
    let scrolling = ButtonState { wheel: Wheel { up: true, down: false }, ..ButtonState::default() };
    assert!(scrolling.scroll_up());
    assert!(!scrolling.scroll_down());
    assert!(rest.scroll_end(&scrolling));
    assert!(!scrolling.scroll_end(&rest));
    assert!(!rest.scroll_end(&rest));
}

#[test]
fn mute_button_flag() {
    let muted = ButtonState { mute_button: true, ..ButtonState::default() };
    assert!(muted.mute_button_pressed());
    assert!(!ButtonState::default().mute_button_pressed());
}

#[test]
fn buttons_from_bitfield() {
    let frame = vec![0x11, 0xff, 0x07, 0x00, 0x05];
    let buttons = Buttons::from_bytes(&frame);
    assert!(buttons.g1);
    assert!(!buttons.g2);
    assert!(buttons.g3);
}

#[test]
fn wheel_from_bitfield() {
    let up_frame = vec![0x01, 0x01, 0x00, 0x00, 0x00];
    let down_frame = vec![0x01, 0x02, 0x00, 0x00, 0x00];
    let both_frame = vec![0x01, 0x03, 0x00, 0x00, 0x00];
    assert_eq!(Wheel::from_bytes(&up_frame), Wheel { up: true, down: false });
    assert_eq!(Wheel::from_bytes(&down_frame), Wheel { up: false, down: true });
    assert_eq!(Wheel::from_bytes(&both_frame), Wheel { up: true, down: true });
}

#[test]
fn mic_arm_from_bytes() {
    assert_eq!(MicArm::from_bytes(&vec![0x08, 0x10]), MicArm::Up);
    assert_eq!(MicArm::from_bytes(&vec![0x08, 0x20]), MicArm::Down);
}

#[test]
fn malformed_mic_arm_byte_defaults_to_up() {
    // An out-of-range position byte must classify as up, not crash.
    assert_eq!(MicArm::from_bytes(&vec![0x08, 0x30]), MicArm::Up);
    assert_eq!(MicArm::from_bytes(&vec![0x08, 0x00]), MicArm::Up);
}

#[test]
fn default_state() {
    let state = ButtonState::default();
    assert_eq!(state.mic_arm, MicArm::Up);
    assert!(!state.buttons.g1 && !state.buttons.g2 && !state.buttons.g3);
    assert!(!state.wheel.up && !state.wheel.down);
    assert!(!state.mute_button);
    assert_eq!(MicArm::default(), MicArm::Up);
    assert_eq!(Buttons::default(), Buttons { g1: false, g2: false, g3: false });
    assert_eq!(Wheel::default(), Wheel { up: false, down: false });
}
