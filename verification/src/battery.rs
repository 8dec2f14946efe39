//! Battery telemetry decoded from battery-feature responses.

use vstd::prelude::*;

use crate::error::Error;

verus! {

/// The current status of charging.
#[derive(Debug, Eq, Hash, PartialEq, Copy, Clone, Structural)]
pub enum ChargingStatus {
    /// Battery is discharging.
    Discharging,
    /// Battery is charging.
    Charging,
    /// Battery is full.
    Full,
}

/// The charging status encoded by the status byte of a battery payload:
/// 1 means discharging, 3 charging, 7 full, and any other value falls back
/// to discharging.
pub open spec fn spec_charging_status(byte: u8) -> ChargingStatus {
    if byte == 1 {
        ChargingStatus::Discharging
    } else if byte == 3 {
        ChargingStatus::Charging
    } else if byte == 7 {
        ChargingStatus::Full
    } else {
        ChargingStatus::Discharging
    }
}

/// Whether the status byte of a battery payload is one the device documents.
pub open spec fn spec_charging_status_known(byte: u8) -> bool {
    byte == 1 || byte == 3 || byte == 7
}

/// Whether a status byte is documented; an unknown one decodes to
/// discharging and is worth a classification warning, nothing more.
pub fn charging_status_known(byte: u8) -> (r: bool)
    ensures
        r == spec_charging_status_known(byte),
{
    byte == 1 || byte == 3 || byte == 7
}

/// The big-endian 16-bit value formed by two bytes.
pub open spec fn be16(hi: u8, lo: u8) -> u16 {
    ((hi as int) * 256 + (lo as int)) as u16
}

impl ChargingStatus {
    /// A short human-readable name for the status.
    pub fn label(&self) -> (r: &'static str)
        ensures
            *self == ChargingStatus::Discharging ==> r@ == "discharging"@,
            *self == ChargingStatus::Charging ==> r@ == "charging"@,
            *self == ChargingStatus::Full ==> r@ == "full"@,
    {
        match self {
            ChargingStatus::Discharging => "discharging",
            ChargingStatus::Charging => "charging",
            ChargingStatus::Full => "full",
        }
    }
}

/// Battery telemetry: the measured voltage and the charging status.
///
/// The charge percentage the application derives from the voltage is a
/// device-specific curve fit over fractional values, which this crate does
/// not model; the voltage here is the exact input to that curve.
#[derive(Debug, Clone, Copy, PartialEq, Eq, Structural)]
pub struct BatteryStatus {
    /// Charging status.
    pub charging_status: ChargingStatus,
    /// Battery voltage in millivolts.
    pub voltage: u16,
}

impl BatteryStatus {
    /// Decodes a battery payload: bytes 0-1 are the big-endian voltage in
    /// millivolts and byte 2 is the charging-status discriminant.
    ///
    /// An unknown status byte is a non-fatal classification error: the
    /// status falls back to discharging.
    pub fn from_bytes(bytes: &Vec<u8>) -> (r: BatteryStatus)
        requires
            bytes@.len() >= 3,
        ensures
            r.voltage == be16(bytes@[0], bytes@[1]),
            r.charging_status == spec_charging_status(bytes@[2]),
    {
        let charging_status = match bytes[2] {
            1u8 => ChargingStatus::Discharging,
            3u8 => ChargingStatus::Charging,
            7u8 => ChargingStatus::Full,
            _ => ChargingStatus::Discharging,
        };
        let voltage: u16 = (bytes[0] as u16) * 256 + (bytes[1] as u16);
        BatteryStatus { charging_status, voltage }
    }

    /// Decodes the battery payload of a correlated response frame, whose
    /// payload starts at byte 4.
    pub fn parse_response(resp: &Vec<u8>) -> (r: Result<BatteryStatus, Error>)
        ensures
            resp@.len() >= 7 ==> (r matches Ok(status) && status.voltage == be16(
                resp@[4],
                resp@[5],
            ) && status.charging_status == spec_charging_status(resp@[6])),
            resp@.len() < 7 ==> r == Err::<BatteryStatus, Error>(Error::ResponseTooShort),
    {
        if resp.len() < 7 {
            return Err(Error::ResponseTooShort);
        }
        let mut payload: Vec<u8> = Vec::new();
        payload.push(resp[4]);
        payload.push(resp[5]);
        payload.push(resp[6]);
        Ok(BatteryStatus::from_bytes(&payload))
    }
}

/// The request body that asks the battery feature for its status.
pub fn battery_request_body() -> (r: Vec<u8>)
    ensures
        r@ == seq![0x01u8],
{
    let mut body: Vec<u8> = Vec::new();
    body.push(0x01);
    proof {
        assert(body@ =~= seq![0x01u8]);
    }
    body
}

} // verus!
