//! The read/classify/dispatch/resync cycle: classification of unsolicited
//! messages and the per-iteration state step of the control loop.
//!
//! Each iteration, the caller polls the transport for one message and hands
//! it to [`EventLoopState::step`], which classifies it by structural
//! pattern, updates the retained button-state snapshot and the idle
//! counter, and says which single action the caller must perform: invoke a
//! handler, re-push configuration, log, or nothing.  Performing the action
//! — and the reads and writes behind it — is the caller's business.

use vstd::prelude::*;

use crate::buttons::ButtonState;
use crate::buttons::Buttons;
use crate::buttons::MicArm;
use crate::buttons::Wheel;
use crate::buttons::spec_buttons;
use crate::buttons::spec_mic_arm;
use crate::buttons::spec_wheel;
use crate::config::Config;
use crate::config::field_forced;
use crate::power_state::PowerState;

verus! {

/// The timeout of one poll for unsolicited traffic, in milliseconds.
pub const POLL_TIMEOUT_MS: i32 = 500;

/// How long the loop may stay idle before it defensively re-pushes the
/// configuration, in seconds.  The device silently drops configuration
/// across a host sleep without sending a reconnect notification.
pub const RESET_TIME_SEC: i32 = 20;

/// After how many consecutive idle polls the defensive re-push triggers:
/// the reset time expressed in poll timeouts.
pub const RESET_COUNTER_AFTER: i32 = 40;

/// The idle threshold is exactly the reset time divided into poll-timeout
/// slices.
pub proof fn lemma_reset_counter_consistent()
    ensures
        RESET_COUNTER_AFTER == RESET_TIME_SEC * 1000 / POLL_TIMEOUT_MS as int,
{
}

/// The shape of one polled message, in the fixed order the patterns are
/// tried.
#[derive(Debug, Clone, Copy, PartialEq, Eq, Structural)]
pub enum Classification {
    /// An empty read: no message arrived before the poll timeout.
    Idle,
    /// A mic-arm change notification; byte 1 carries the position.
    MicArmChange,
    /// A mute-button press notification.
    MuteButton,
    /// A button report addressed from the buttons feature; byte 4 carries
    /// the key bitfield.
    ButtonReport,
    /// A wheel scroll notification; byte 1 carries the scroll bitfield.
    WheelReport,
    /// A battery push notification: a power-state transition.
    PowerReport,
    /// A frame matching no known shape; logged, never dispatched.
    Unrecognized,
}

/// Classifies one message by structural pattern.  The patterns are tried in
/// a fixed order, so a feature-addressed frame matches the buttons feature
/// before the battery feature when the device assigned both the same index.
/// A button report too short to carry its key bitfield is not dispatched.
pub open spec fn spec_classify(m: Seq<u8>, gkey: u8, battery: u8) -> Classification {
    if m.len() == 0 {
        Classification::Idle
    } else if m.len() == 2 && m[0] == 0x08 && (m[1] == 0x10 || m[1] == 0x20) {
        Classification::MicArmChange
    } else if m.len() == 2 && m[0] == 0x08 && m[1] == 0x01 {
        Classification::MuteButton
    } else if m.len() >= 5 && m[0] == 0x11 && m[1] == 0xff && m[2] == gkey && m[3] == 0x00 {
        Classification::ButtonReport
    } else if m.len() == 5 && m[0] == 0x01 && m[2] == 0x00 && m[3] == 0x00 && m[4] == 0x00 {
        Classification::WheelReport
    } else if m.len() >= 4 && m[0] == 0x11 && m[1] == 0xff && m[2] == battery && m[3] == 0x00 {
        Classification::PowerReport
    } else {
        Classification::Unrecognized
    }
}

/// The power state a battery push announces: an all-zero payload means the
/// device disconnected, anything else means it (re)connected.
pub open spec fn spec_power_state(m: Seq<u8>) -> PowerState {
    if forall|i: int| 4 <= i < m.len() ==> m[i] == 0 {
        PowerState::Disconnected
    } else {
        PowerState::Connected
    }
}

/// Classifies one polled message by structural pattern.
pub fn classify(m: &Vec<u8>, gkey: u8, battery: u8) -> (r: Classification)
    ensures
        r == spec_classify(m@, gkey, battery),
{
    if m.len() == 0 {
        Classification::Idle
    } else if m.len() == 2 && m[0] == 0x08 && (m[1] == 0x10 || m[1] == 0x20) {
        Classification::MicArmChange
    } else if m.len() == 2 && m[0] == 0x08 && m[1] == 0x01 {
        Classification::MuteButton
    } else if m.len() >= 5 && m[0] == 0x11 && m[1] == 0xff && m[2] == gkey && m[3] == 0x00 {
        Classification::ButtonReport
    } else if m.len() == 5 && m[0] == 0x01 && m[2] == 0x00 && m[3] == 0x00 && m[4] == 0x00 {
        Classification::WheelReport
    } else if m.len() >= 4 && m[0] == 0x11 && m[1] == 0xff && m[2] == battery && m[3] == 0x00 {
        Classification::PowerReport
    } else {
        Classification::Unrecognized
    }
}

/// Reads the power state out of a battery push notification.
pub fn power_state_of(m: &Vec<u8>) -> (r: PowerState)
    requires
        m@.len() >= 4,
    ensures
        r == spec_power_state(m@),
{
    let mut i: usize = 4;
    while i < m.len()
        invariant
            4 <= i <= m@.len(),
            forall|j: int| 4 <= j < i ==> m@[j] == 0,
        decreases m@.len() - i,
    {
        if m[i] != 0 {
            return PowerState::Connected;
        }
        i = i + 1;
    }
    PowerState::Disconnected
}

/// The single action one loop iteration asks its caller to perform.
#[derive(Debug, Clone, Copy, PartialEq, Eq, Structural)]
pub enum LoopAction {
    /// Nothing beyond the per-iteration periodic work.
    Nothing,
    /// Unconditionally re-push the buttons-enabled flag and both light
    /// effects, best-effort: the loop has been idle long enough that the
    /// device may have silently dropped its configuration.
    Repush,
    /// Invoke the button handler with this snapshot.
    CallButtonHandler(ButtonState),
    /// Invoke the power-state-change handler with this state.
    CallPowerHandler(PowerState),
    /// Log the unrecognized frame; do not dispatch it.
    LogUnrecognized,
}

/// The state the loop carries across iterations: the last observed button
/// state, and how many consecutive polls came back empty.
#[derive(Debug, Clone, Copy, PartialEq, Eq, Structural)]
pub struct EventLoopState {
    /// The last observed button state.  Edge detection against an older
    /// snapshot is the button handler's own business, not the loop's.
    pub button_state: ButtonState,
    /// Consecutive idle polls since the last defensive re-push.
    pub counter: i32,
}

impl EventLoopState {
    /// The state at loop entry: default snapshot, idle counter at zero.
    pub fn new() -> (r: EventLoopState)
        ensures
            r.button_state == (ButtonState {
                buttons: Buttons { g1: false, g2: false, g3: false },
                wheel: Wheel { up: false, down: false },
                mic_arm: MicArm::Up,
                mute_button: false,
            }),
            r.counter == 0,
    {
        EventLoopState { button_state: ButtonState::default(), counter: 0 }
    }

    /// Performs the decision part of one loop iteration on the polled
    /// message `msg`.
    ///
    /// Idle polls advance the counter until it crosses `idle_threshold`,
    /// which asks for a defensive re-push and resets the counter.  A
    /// notification updates the retained snapshot and asks for the matching
    /// handler invocation; a connect transition additionally marks the whole
    /// configuration dirty, because the device forgot it.  A poll that
    /// produced no readable message at all changes nothing.
    pub fn step<B, P, R>(
        &mut self,
        config: &mut Config<B, P, R>,
        msg: &Option<Vec<u8>>,
        gkey: u8,
        battery: u8,
        idle_threshold: i32,
    ) -> (r: LoopAction)
        requires
            0 <= old(self).counter <= idle_threshold,
            idle_threshold < i32::MAX,
        ensures
            0 <= final(self).counter <= idle_threshold,
            msg is None ==> {
                &&& r == LoopAction::Nothing
                &&& *final(self) == *old(self)
                &&& *final(config) == *old(config)
            },
            msg matches Some(m) ==> {
                let cls = spec_classify(m@, gkey, battery);
                &&& cls == Classification::Idle ==> {
                    &&& final(self).button_state == old(self).button_state
                    &&& *final(config) == *old(config)
                    &&& old(self).counter + 1 > idle_threshold ==> final(self).counter == 0 && r
                        == LoopAction::Repush
                    &&& old(self).counter + 1 <= idle_threshold ==> final(self).counter == old(
                        self,
                    ).counter + 1 && r == LoopAction::Nothing
                }
                &&& cls == Classification::MicArmChange ==> {
                    &&& *final(self) == (EventLoopState {
                        button_state: ButtonState {
                            mic_arm: spec_mic_arm(m@[1]),
                            ..old(self).button_state
                        },
                        ..*old(self)
                    })
                    &&& *final(config) == *old(config)
                    &&& r == LoopAction::CallButtonHandler(final(self).button_state)
                }
                &&& cls == Classification::MuteButton ==> {
                    &&& *final(self) == *old(self)
                    &&& *final(config) == *old(config)
                    &&& r == LoopAction::CallButtonHandler(
                        ButtonState { mute_button: true, ..old(self).button_state },
                    )
                }
                &&& cls == Classification::ButtonReport ==> {
                    &&& *final(self) == (EventLoopState {
                        button_state: ButtonState {
                            buttons: spec_buttons(m@[4]),
                            ..old(self).button_state
                        },
                        ..*old(self)
                    })
                    &&& *final(config) == *old(config)
                    &&& r == LoopAction::CallButtonHandler(final(self).button_state)
                }
                &&& cls == Classification::WheelReport ==> {
                    &&& *final(self) == (EventLoopState {
                        button_state: ButtonState {
                            wheel: spec_wheel(m@[1]),
                            ..old(self).button_state
                        },
                        ..*old(self)
                    })
                    &&& *final(config) == *old(config)
                    &&& r == LoopAction::CallButtonHandler(final(self).button_state)
                }
                &&& cls == Classification::PowerReport ==> {
                    &&& *final(self) == *old(self)
                    &&& r == LoopAction::CallPowerHandler(spec_power_state(m@))
                    &&& spec_power_state(m@) == PowerState::Disconnected ==> *final(config)
                        == *old(config)
                    &&& spec_power_state(m@) == PowerState::Connected ==> *final(config)
                        == (Config {
                        button_handler: field_forced(old(config).button_handler),
                        power_state_change_handler: field_forced(
                            old(config).power_state_change_handler,
                        ),
                        periodic_handler: field_forced(old(config).periodic_handler),
                        side_light_effect: field_forced(old(config).side_light_effect),
                        logo_light_effect: field_forced(old(config).logo_light_effect),
                    })
                }
                &&& cls == Classification::Unrecognized ==> {
                    &&& r == LoopAction::LogUnrecognized
                    &&& *final(self) == *old(self)
                    &&& *final(config) == *old(config)
                }
            },
    {
        match msg {
            None => LoopAction::Nothing,
            Some(m) => {
                let cls = classify(m, gkey, battery);
                match cls {
                    Classification::Idle => {
                        self.counter = self.counter + 1;
                        if self.counter > idle_threshold {
                            self.counter = 0;
                            LoopAction::Repush
                        } else {
                            LoopAction::Nothing
                        }
                    },
                    Classification::MicArmChange => {
                        self.button_state.mic_arm = MicArm::from_bytes(m);
                        LoopAction::CallButtonHandler(self.button_state)
                    },
                    Classification::MuteButton => {
                        LoopAction::CallButtonHandler(
                            ButtonState { mute_button: true, ..self.button_state },
                        )
                    },
                    Classification::ButtonReport => {
                        self.button_state.buttons = Buttons::from_bytes(m);
                        LoopAction::CallButtonHandler(self.button_state)
                    },
                    Classification::WheelReport => {
                        self.button_state.wheel = Wheel::from_bytes(m);
                        LoopAction::CallButtonHandler(self.button_state)
                    },
                    Classification::PowerReport => {
                        let power_state = power_state_of(m);
                        match power_state {
                            PowerState::Connected => config.set_dirty(),
                            PowerState::Disconnected => (),
                        }
                        LoopAction::CallPowerHandler(power_state)
                    },
                    Classification::Unrecognized => LoopAction::LogUnrecognized,
                }
            },
        }
    }
}

} // verus!
