//! Protocol engine for a feature-indexed request/response channel to a
//! wireless headset.
//!
//! The engine covers frame construction and correlation, FIFO buffering of
//! unsolicited traffic, the binary codecs for light-effect and battery
//! payloads, dynamic feature-index resolution, dirty-tracked configuration
//! reconciliation, and the classification step of the event loop.  All
//! decisions are made here and carry contracts; the raw device reads and
//! writes that drive them live outside this crate.

pub mod battery;
pub mod buttons;
pub mod config;
pub mod error;
pub mod event_loop;
pub mod features;
pub mod lights;
pub mod ops;
pub mod power_state;
pub mod transport;

pub use battery::BatteryStatus;
pub use battery::ChargingStatus;
pub use buttons::ButtonState;
pub use power_state::PowerState;
