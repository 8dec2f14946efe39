//! Dynamic feature-index resolution.
//!
//! The device exposes functionality as numbered features.  Index 0 is the
//! root feature by protocol convention; every other index is looked up at
//! connection time by asking the root feature for the well-known 16-bit
//! feature ID.  The resolved indices are immutable for the lifetime of one
//! connection.

use vstd::prelude::*;

use crate::error::Error;

verus! {

/// The well-known ID of the root feature used to discover other features.
pub const ROOT_FEATURE_ID: u16 = 0x0000;

/// The well-known ID of the battery feature.
pub const BATTERY_FEATURE_ID: u16 = 0x1f20;

/// The well-known ID of the device-name feature.
pub const DEVNAME_FEATURE_ID: u16 = 0x0005;

/// The well-known ID of the feature that gives access to the G-key buttons.
pub const GKEY_FEATURE_ID: u16 = 0x8010;

/// The well-known ID of the feature that controls the lights.
pub const LIGHTS_FEATURE_ID: u16 = 0x8070;

/// A feature on the device: an index assigned by the device at connection
/// time for a well-known feature ID.
#[derive(Debug, Clone, Copy, PartialEq, Eq, Structural)]
pub struct Feature {
    /// The index of the feature.
    pub index: u8,
}

impl Feature {
    /// The root feature, which by protocol convention has index 0 and needs
    /// no resolution.
    pub fn root() -> (r: Feature)
        ensures
            r.index == 0,
    {
        Feature { index: 0 }
    }

    /// Builds the 20-byte frame of a request on this feature: the
    /// feature-addressed report header followed by the body, zero-padded.
    pub fn request_frame(&self, body: &Vec<u8>) -> (r: Vec<u8>)
        requires
            body@.len() <= 17,
        ensures
            r@.len() == 20,
            r@[0] == 0x11,
            r@[1] == 0xff,
            r@[2] == self.index,
            forall|i: int| 0 <= i < body@.len() ==> r@[3 + i] == body@[i],
            forall|i: int| 3 + body@.len() <= i < 20 ==> r@[i] == 0,
    {
        let mut data: Vec<u8> = vec![0u8; 20];
        data[0] = 0x11;
        data[1] = 0xff;
        data[2] = self.index;

        let mut i: usize = 0;
        while i < body.len()
            invariant
                body@.len() <= 17,
                0 <= i <= body@.len(),
                data@.len() == 20,
                data@[0] == 0x11,
                data@[1] == 0xff,
                data@[2] == self.index,
                forall|j: int| 0 <= j < i ==> data@[3 + j] == body@[j],
                forall|j: int| 3 + i <= j < 20 ==> data@[j] == 0,
            decreases body@.len() - i,
        {
            data[3 + i] = body[i];
            i = i + 1;
        }

        data
    }
}

/// The request body that asks the root feature to resolve a feature ID:
/// the lookup function byte followed by the ID in big-endian order.
pub fn resolve_request_body(feature_id: u16) -> (r: Vec<u8>)
    ensures
        r@ == seq![0x01u8, (feature_id / 256) as u8, (feature_id % 256) as u8],
{
    let mut body: Vec<u8> = Vec::new();
    body.push(0x01);
    body.push((feature_id / 256) as u8);
    body.push((feature_id % 256) as u8);
    proof {
        assert(body@ =~= seq![0x01u8, (feature_id / 256) as u8, (feature_id % 256) as u8]);
    }
    body
}

/// Reads the resolved feature index out of a root-feature lookup response.
///
/// The device answers with whatever index byte it chooses, including 0 for
/// an unsupported feature; no further validation happens here.
pub fn feature_from_response(resp: &Vec<u8>) -> (r: Result<Feature, Error>)
    ensures
        resp@.len() >= 5 ==> r == Ok::<Feature, Error>(Feature { index: resp@[4] }),
        resp@.len() < 5 ==> r == Err::<Feature, Error>(Error::ResponseTooShort),
{
    if resp.len() < 5 {
        return Err(Error::ResponseTooShort);
    }
    Ok(Feature { index: resp[4] })
}

/// The feature indices this engine resolves, in resolution order.
///
/// Partial failure of the batch aborts the whole connection attempt, so a
/// `FeatureMap` only ever exists fully resolved.
#[derive(Debug, Clone, Copy, PartialEq, Eq, Structural)]
pub struct FeatureMap {
    /// The root feature used for discovering other features.
    pub root: Feature,
    /// The feature used to read battery levels and charging status.
    pub battery: Feature,
    /// The feature used to read the device name.
    pub devname: Feature,
    /// The feature that allows access to the G-key buttons.
    pub gkey: Feature,
    /// The feature that controls the LEDs.
    pub lights: Feature,
}

/// The well-known feature IDs to resolve at connection setup, in the fixed
/// order that `FeatureMap::from_indices` expects the results.
pub fn feature_ids() -> (r: Vec<u16>)
    ensures
        r@ == seq![
            ROOT_FEATURE_ID,
            BATTERY_FEATURE_ID,
            DEVNAME_FEATURE_ID,
            GKEY_FEATURE_ID,
            LIGHTS_FEATURE_ID,
        ],
{
    let mut ids: Vec<u16> = Vec::new();
    ids.push(ROOT_FEATURE_ID);
    ids.push(BATTERY_FEATURE_ID);
    ids.push(DEVNAME_FEATURE_ID);
    ids.push(GKEY_FEATURE_ID);
    ids.push(LIGHTS_FEATURE_ID);
    proof {
        assert(ids@ =~= seq![
            ROOT_FEATURE_ID,
            BATTERY_FEATURE_ID,
            DEVNAME_FEATURE_ID,
            GKEY_FEATURE_ID,
            LIGHTS_FEATURE_ID,
        ]);
    }
    ids
}

impl FeatureMap {
    /// Assembles the map from the indices resolved for `feature_ids()`, in
    /// the same order.
    pub fn from_indices(indices: &Vec<u8>) -> (r: FeatureMap)
        requires
            indices@.len() == 5,
        ensures
            r.root.index == indices@[0],
            r.battery.index == indices@[1],
            r.devname.index == indices@[2],
            r.gkey.index == indices@[3],
            r.lights.index == indices@[4],
    {
        FeatureMap {
            root: Feature { index: indices[0] },
            battery: Feature { index: indices[1] },
            devname: Feature { index: indices[2] },
            gkey: Feature { index: indices[3] },
            lights: Feature { index: indices[4] },
        }
    }
}

} // verus!
