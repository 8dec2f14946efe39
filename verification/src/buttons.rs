//! Button, wheel and microphone-arm state, decoded from notification frames.

use vstd::prelude::*;

verus! {

/// Pressed state of the three programmable keys.
///
/// Decoded from bit 0, 1 and 2 of byte 4 of a button notification frame.
#[derive(Debug, Clone, Copy, PartialEq, Eq, Structural)]
pub struct Buttons {
    /// Whether the G1 key is pressed.
    pub g1: bool,
    /// Whether the G2 key is pressed.
    pub g2: bool,
    /// Whether the G3 key is pressed.
    pub g3: bool,
}

/// The key states encoded by the bitfield byte of a button notification.
pub open spec fn spec_buttons(byte: u8) -> Buttons {
    Buttons { g1: (byte & 1) != 0, g2: (byte & 2) != 0, g3: (byte & 4) != 0 }
}

impl Buttons {
    /// Decodes the key bitfield of a button notification frame.
    pub fn from_bytes(bytes: &Vec<u8>) -> (r: Buttons)
        requires
            bytes@.len() > 4,
        ensures
            r == spec_buttons(bytes@[4]),
    {
        Buttons { g1: bytes[4] & 1 != 0, g2: bytes[4] & 2 != 0, g3: bytes[4] & 4 != 0 }
    }
}

impl Default for Buttons {
    /// All keys start unpressed.
    fn default() -> (r: Buttons)
        ensures
            r == (Buttons { g1: false, g2: false, g3: false }),
    {
        Buttons { g1: false, g2: false, g3: false }
    }
}

/// Scroll activity of the wheel, one flag per direction.
///
/// Decoded from bit 0 and 1 of byte 1 of a wheel notification frame; the
/// encoding permits both flags at once and both clear.
#[derive(Debug, Clone, Copy, PartialEq, Eq, Structural)]
pub struct Wheel {
    /// Whether the wheel is currently scrolling up.
    pub up: bool,
    /// Whether the wheel is currently scrolling down.
    pub down: bool,
}

/// The scroll flags encoded by the bitfield byte of a wheel notification.
pub open spec fn spec_wheel(byte: u8) -> Wheel {
    Wheel { up: (byte & 1) != 0, down: (byte & 2) != 0 }
}

impl Wheel {
    /// Decodes the scroll bitfield of a wheel notification frame.
    pub fn from_bytes(bytes: &Vec<u8>) -> (r: Wheel)
        requires
            bytes@.len() > 1,
        ensures
            r == spec_wheel(bytes@[1]),
    {
        Wheel { up: bytes[1] & 1 != 0, down: bytes[1] & 2 != 0 }
    }
}

impl Default for Wheel {
    /// The wheel starts at rest.
    fn default() -> (r: Wheel)
        ensures
            r == (Wheel { up: false, down: false }),
    {
        Wheel { up: false, down: false }
    }
}

/// The position of the microphone arm.
#[derive(Debug, Clone, Copy, PartialEq, Eq, Structural)]
pub enum MicArm {
    /// The microphone arm is currently flipped up.
    Up,
    /// The microphone arm is currently flipped down.
    Down,
}

/// The microphone-arm position encoded by byte 1 of a mic-arm notification:
/// 0x10 means up, 0x20 means down, and any other value falls back to up.
pub open spec fn spec_mic_arm(byte: u8) -> MicArm {
    if byte == 0x10 {
        MicArm::Up
    } else if byte == 0x20 {
        MicArm::Down
    } else {
        MicArm::Up
    }
}

impl MicArm {
    /// Decodes the position byte of a mic-arm notification frame.
    ///
    /// An out-of-range byte is a non-fatal classification error: the position
    /// falls back to up.
    pub fn from_bytes(bytes: &Vec<u8>) -> (r: MicArm)
        requires
            bytes@.len() > 1,
        ensures
            r == spec_mic_arm(bytes@[1]),
    {
        if bytes[1] == 0x10 {
            MicArm::Up
        } else if bytes[1] == 0x20 {
            MicArm::Down
        } else {
            MicArm::Up
        }
    }
}

impl Default for MicArm {
    /// The arm is assumed up until a notification says otherwise.
    fn default() -> (r: MicArm)
        ensures
            r == MicArm::Up,
    {
        MicArm::Up
    }
}

/// A complete snapshot of the state of all buttons.
///
/// Two temporally ordered snapshots are compared to derive edge events; a
/// snapshot itself is never mutated once dispatched.
#[derive(Debug, Clone, Copy, PartialEq, Eq, Structural)]
pub struct ButtonState {
    /// The state of the keys.
    pub buttons: Buttons,
    /// The state of the wheel.
    pub wheel: Wheel,
    /// The state of the microphone arm.
    pub mic_arm: MicArm,
    /// Whether the mute button was pressed during the recording of this state.
    pub mute_button: bool,
}

impl ButtonState {
    /// Returns `true` if the microphone was flipped up.
    pub fn mic_flipped_up(&self, prev: &ButtonState) -> (r: bool)
        ensures
            r == (prev.mic_arm == MicArm::Down && self.mic_arm == MicArm::Up),
    {
        prev.mic_arm == MicArm::Down && self.mic_arm == MicArm::Up
    }

    /// Returns `true` if the microphone was flipped down.
    pub fn mic_flipped_down(&self, prev: &ButtonState) -> (r: bool)
        ensures
            r == (prev.mic_arm == MicArm::Up && self.mic_arm == MicArm::Down),
    {
        prev.mic_arm == MicArm::Up && self.mic_arm == MicArm::Down
    }

    /// Returns `true` if the G1 key was pressed.
    pub fn g1_pressed(&self, prev: &ButtonState) -> (r: bool)
        ensures
            r == (!prev.buttons.g1 && self.buttons.g1),
    {
        !prev.buttons.g1 && self.buttons.g1
    }

    /// Returns `true` if the G1 key was released.
    pub fn g1_released(&self, prev: &ButtonState) -> (r: bool)
        ensures
            r == (prev.buttons.g1 && !self.buttons.g1),
    {
        prev.buttons.g1 && !self.buttons.g1
    }

    /// Returns `true` if the G2 key was pressed.
    pub fn g2_pressed(&self, prev: &ButtonState) -> (r: bool)
        ensures
            r == (!prev.buttons.g2 && self.buttons.g2),
    {
        !prev.buttons.g2 && self.buttons.g2
    }

    /// Returns `true` if the G2 key was released.
    pub fn g2_released(&self, prev: &ButtonState) -> (r: bool)
        ensures
            r == (prev.buttons.g2 && !self.buttons.g2),
    {
        prev.buttons.g2 && !self.buttons.g2
    }

    /// Returns `true` if the G3 key was pressed.
    pub fn g3_pressed(&self, prev: &ButtonState) -> (r: bool)
        ensures
            r == (!prev.buttons.g3 && self.buttons.g3),
    {
        !prev.buttons.g3 && self.buttons.g3
    }

    /// Returns `true` if the G3 key was released.
    pub fn g3_released(&self, prev: &ButtonState) -> (r: bool)
        ensures
            r == (prev.buttons.g3 && !self.buttons.g3),
    {
        prev.buttons.g3 && !self.buttons.g3
    }

    /// Returns `true` if the scroll wheel is being scrolled down.
    pub fn scroll_down(&self) -> (r: bool)
        ensures
            r == self.wheel.down,
    {
        self.wheel.down
    }

    /// Returns `true` if the scroll wheel is being scrolled up.
    pub fn scroll_up(&self) -> (r: bool)
        ensures
            r == self.wheel.up,
    {
        self.wheel.up
    }

    /// Returns `true` if the mute button is being pressed.
    pub fn mute_button_pressed(&self) -> (r: bool)
        ensures
            r == self.mute_button,
    {
        self.mute_button
    }

    /// Returns `true` if the scrolling ended.
    pub fn scroll_end(&self, prev: &ButtonState) -> (r: bool)
        ensures
            r == ((prev.wheel.down || prev.wheel.up) && !self.wheel.down && !self.wheel.up),
    {
        (prev.scroll_down() || prev.scroll_up()) && !self.scroll_down() && !self.scroll_up()
    }
}

impl Default for ButtonState {
    /// The initial snapshot: nothing pressed, wheel at rest, arm up.
    fn default() -> (r: ButtonState)
        ensures
            r == (ButtonState {
                buttons: Buttons { g1: false, g2: false, g3: false },
                wheel: Wheel { up: false, down: false },
                mic_arm: MicArm::Up,
                mute_button: false,
            }),
    {
        ButtonState {
            buttons: Buttons { g1: false, g2: false, g3: false },
            wheel: Wheel { up: false, down: false },
            mic_arm: MicArm::Up,
            mute_button: false,
        }
    }
}

} // verus!
