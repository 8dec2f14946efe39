//! The power state of the device, as derived from battery push notifications.

use vstd::prelude::*;

verus! {

/// Represents the current power state of the headset.
///
/// The state is derived transiently from battery-feature push notifications
/// and is not persisted anywhere.
#[derive(Debug, Clone, Copy, PartialEq, Eq, Structural)]
pub enum PowerState {
    /// The headset is currently connected.
    Connected,
    /// The headset is turned off.
    Disconnected,
}

} // verus!
