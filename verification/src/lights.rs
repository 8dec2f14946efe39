//! The fixed-layout binary codec for light-effect configuration.
//!
//! A light configuration travels as a 13-byte body: byte 0 selects the zone,
//! byte 1 the effect kind, bytes 2-4 carry RGB, bytes 5-6 and 8 carry the
//! breathing rate and brightness, bytes 7-9 the color-cycle rate and
//! brightness, and byte 12 the profile type.  Encoding and decoding are
//! stateless and strict: an out-of-range discriminant is a hard decode
//! failure.

use vstd::prelude::*;

use crate::battery::be16;
use crate::error::Error;

verus! {

/// Describes which light to configure.
#[derive(Debug, Clone, Copy, PartialEq, Eq, Structural)]
pub enum Light {
    /// The logo light.
    Logo,
    /// The main lights on the side.
    Side,
}

/// Configuration for the light effect.
#[derive(Debug, Clone, Copy, PartialEq, Eq, Structural)]
pub enum Effect {
    /// Settings for the off effect.
    Off,
    /// Settings for the static color effect.
    Static {
        /// Red value.
        red: u8,
        /// Green value.
        green: u8,
        /// Blue value.
        blue: u8,
    },
    /// Settings for the breathing effect.
    Breathing {
        /// Red value.
        red: u8,
        /// Green value.
        green: u8,
        /// Blue value.
        blue: u8,
        /// The rate of the breathing effect.
        rate: u16,
        /// Light brightness.
        brightness: u8,
    },
    /// Settings for the color cycle effect.
    ColorCycle {
        /// The rate of the cycle effect.
        rate: u16,
        /// Light brightness.
        brightness: u8,
    },
}

impl Default for Effect {
    /// The default effect leaves the light off.
    fn default() -> (r: Effect)
        ensures
            r == Effect::Off,
    {
        Effect::Off
    }
}

/// Profile type: whether a setting is applied transiently or stored.
#[derive(Debug, Clone, Copy, PartialEq, Eq, Structural)]
pub enum ProfileType {
    /// Temporarily set (until next power-on).
    Temporary,
    /// Permanently store the setting in the device (don't apply now).
    Permanent,
}

/// Headset light configuration.
#[derive(Debug, Clone, Copy, PartialEq, Eq, Structural)]
pub struct Config {
    /// Which light to configure.
    pub light: Light,
    /// Configuration for the effect.
    pub effect: Effect,
    /// Profile type.
    pub profile_type: ProfileType,
}

/// The zone discriminant: 0 for the logo light, 1 for the side lights.
pub open spec fn light_byte(light: Light) -> u8 {
    match light {
        Light::Logo => 0x00,
        Light::Side => 0x01,
    }
}

/// The effect-kind discriminant: 0 off, 1 static, 2 breathing, 3 color cycle.
pub open spec fn effect_kind_byte(effect: Effect) -> u8 {
    match effect {
        Effect::Off => 0x00,
        Effect::Static { .. } => 0x01,
        Effect::Breathing { .. } => 0x02,
        Effect::ColorCycle { .. } => 0x03,
    }
}

/// The profile-type discriminant: 0 temporary, 2 permanent.
pub open spec fn profile_byte(profile_type: ProfileType) -> u8 {
    match profile_type {
        ProfileType::Temporary => 0,
        ProfileType::Permanent => 2,
    }
}

/// The byte at offset `i` of the encoded 13-byte body of `c`.
pub open spec fn spec_encode_byte(c: Config, i: int) -> u8 {
    if i == 0 {
        light_byte(c.light)
    } else if i == 1 {
        effect_kind_byte(c.effect)
    } else if i == 2 {
        match c.effect {
            Effect::Static { red, .. } => red,
            Effect::Breathing { red, .. } => red,
            _ => 0,
        }
    } else if i == 3 {
        match c.effect {
            Effect::Static { green, .. } => green,
            Effect::Breathing { green, .. } => green,
            _ => 0,
        }
    } else if i == 4 {
        match c.effect {
            Effect::Static { blue, .. } => blue,
            Effect::Breathing { blue, .. } => blue,
            _ => 0,
        }
    } else if i == 5 {
        match c.effect {
            Effect::Breathing { rate, .. } => (rate / 256) as u8,
            _ => 0,
        }
    } else if i == 6 {
        match c.effect {
            Effect::Breathing { rate, .. } => (rate % 256) as u8,
            _ => 0,
        }
    } else if i == 7 {
        match c.effect {
            Effect::ColorCycle { rate, .. } => (rate / 256) as u8,
            _ => 0,
        }
    } else if i == 8 {
        match c.effect {
            Effect::Breathing { brightness, .. } => brightness,
            Effect::ColorCycle { rate, .. } => (rate % 256) as u8,
            _ => 0,
        }
    } else if i == 9 {
        match c.effect {
            Effect::ColorCycle { brightness, .. } => brightness,
            _ => 0,
        }
    } else if i == 12 {
        profile_byte(c.profile_type)
    } else {
        0
    }
}

/// The encoded 13-byte body of a light configuration.
pub open spec fn spec_encode(c: Config) -> Seq<u8> {
    Seq::new(13, |i: int| spec_encode_byte(c, i))
}

/// Whether a body holds discriminants a decoder accepts: zone at most 1,
/// effect kind at most 3, profile type 0 or 2.
pub open spec fn valid_body(s: Seq<u8>) -> bool {
    &&& s.len() >= 13
    &&& s[0] <= 1
    &&& s[1] <= 3
    &&& (s[12] == 0 || s[12] == 2)
}

/// The configuration described by a well-formed 13-byte body.
pub open spec fn spec_decode(s: Seq<u8>) -> Config {
    Config {
        light: if s[0] == 0 {
            Light::Logo
        } else {
            Light::Side
        },
        effect: if s[1] == 0 {
            Effect::Off
        } else if s[1] == 1 {
            Effect::Static { red: s[2], green: s[3], blue: s[4] }
        } else if s[1] == 2 {
            Effect::Breathing {
                red: s[2],
                green: s[3],
                blue: s[4],
                rate: be16(s[5], s[6]),
                brightness: s[8],
            }
        } else {
            Effect::ColorCycle { rate: be16(s[7], s[8]), brightness: s[9] }
        },
        profile_type: if s[12] == 0 {
            ProfileType::Temporary
        } else {
            ProfileType::Permanent
        },
    }
}

impl Config {
    /// Encodes the configuration as its 13-byte body.
    pub fn as_bytes(&self) -> (r: Vec<u8>)
        ensures
            r@ == spec_encode(*self),
            r@.len() == 13,
    {
        let mut params: Vec<u8> = vec![0u8; 13];

        params[0] = match self.light {
            Light::Logo => 0x00,
            Light::Side => 0x01,
        };

        params[1] = match self.effect {
            Effect::Off => 0x00,
            Effect::Static { .. } => 0x01,
            Effect::Breathing { .. } => 0x02,
            Effect::ColorCycle { .. } => 0x03,
        };

        match self.effect {
            Effect::Off => (),
            Effect::Static { red, green, blue } => {
                params[2] = red;
                params[3] = green;
                params[4] = blue;
            },
            Effect::Breathing { red, green, blue, rate, brightness } => {
                params[2] = red;
                params[3] = green;
                params[4] = blue;
                params[5] = (rate / 256) as u8;
                params[6] = (rate % 256) as u8;
                params[8] = brightness;
            },
            Effect::ColorCycle { rate, brightness } => {
                params[7] = (rate / 256) as u8;
                params[8] = (rate % 256) as u8;
                params[9] = brightness;
            },
        }

        params[12] = match self.profile_type {
            ProfileType::Temporary => 0,
            ProfileType::Permanent => 2,
        };

        proof {
            assert(params@ =~= spec_encode(*self));
        }
        params
    }

    /// Checks whether a body carries discriminants the decoder accepts.
    pub fn bytes_valid(bytes: &Vec<u8>) -> (r: bool)
        ensures
            r == valid_body(bytes@),
    {
        bytes.len() >= 13 && bytes[0] <= 1 && bytes[1] <= 3 && (bytes[12] == 0 || bytes[12] == 2)
    }

    /// Decodes a well-formed 13-byte body.
    pub fn from_bytes(bytes: &Vec<u8>) -> (r: Config)
        requires
            valid_body(bytes@),
        ensures
            r == spec_decode(bytes@),
    {
        Config {
            light: if bytes[0] == 0 {
                Light::Logo
            } else {
                Light::Side
            },
            effect: if bytes[1] == 0 {
                Effect::Off
            } else if bytes[1] == 1 {
                Effect::Static { red: bytes[2], green: bytes[3], blue: bytes[4] }
            } else if bytes[1] == 2 {
                Effect::Breathing {
                    red: bytes[2],
                    green: bytes[3],
                    blue: bytes[4],
                    rate: (bytes[5] as u16) * 256 + (bytes[6] as u16),
                    brightness: bytes[8],
                }
            } else {
                Effect::ColorCycle {
                    rate: (bytes[7] as u16) * 256 + (bytes[8] as u16),
                    brightness: bytes[9],
                }
            },
            profile_type: if bytes[12] == 0 {
                ProfileType::Temporary
            } else {
                ProfileType::Permanent
            },
        }
    }

    /// Decodes the light-configuration payload of a correlated response
    /// frame, whose body starts at byte 4.
    ///
    /// An out-of-range discriminant is fatal for the call and is propagated.
    pub fn parse_response(resp: &Vec<u8>) -> (r: Result<Config, Error>)
        ensures
            resp@.len() < 17 ==> r == Err::<Config, Error>(Error::ResponseTooShort),
            resp@.len() >= 17 && !valid_body(resp@.subrange(4, 17)) ==> r == Err::<
                Config,
                Error,
            >(Error::InvalidLightConfig),
            resp@.len() >= 17 && valid_body(resp@.subrange(4, 17)) ==> r == Ok::<Config, Error>(
                spec_decode(resp@.subrange(4, 17)),
            ),
    {
        if resp.len() < 17 {
            return Err(Error::ResponseTooShort);
        }
        let mut body: Vec<u8> = Vec::new();
        let mut i: usize = 4;
        while i < 17
            invariant
                4 <= i <= 17,
                resp@.len() >= 17,
                body@ == resp@.subrange(4, i as int),
            decreases 17 - i,
        {
            body.push(resp[i]);
            i = i + 1;
            proof {
                assert(body@ =~= resp@.subrange(4, i as int));
            }
        }
        if Config::bytes_valid(&body) {
            Ok(Config::from_bytes(&body))
        } else {
            Err(Error::InvalidLightConfig)
        }
    }

    /// The request body that pushes this configuration to the lights
    /// feature: the set-lights function byte followed by the encoded body.
    pub fn set_lights_body(&self) -> (r: Vec<u8>)
        ensures
            r@.len() == 14,
            r@[0] == 0x31,
            r@.subrange(1, 14) == spec_encode(*self),
    {
        let mut request: Vec<u8> = self.as_bytes();
        request.insert(0, 0x31);
        proof {
            assert(request@.subrange(1, 14) =~= spec_encode(*self));
        }
        request
    }
}

/// Encoding always yields a body the decoder accepts.
pub proof fn lemma_encode_valid(c: Config)
    ensures
        valid_body(spec_encode(c)),
{
}

/// Round trip: every constructible configuration decodes back from its own
/// encoding, for every zone, effect variant and profile type.
pub proof fn lemma_round_trip(c: Config)
    ensures
        spec_decode(spec_encode(c)) == c,
{
    let s = spec_encode(c);
    match c.effect {
        Effect::Off => {},
        Effect::Static { red, green, blue } => {},
        Effect::Breathing { red, green, blue, rate, brightness } => {
            assert(be16(s[5], s[6]) == rate) by {
                assert(rate == 256 * (rate / 256) + rate % 256) by (nonlinear_arith);
            }
        },
        Effect::ColorCycle { rate, brightness } => {
            assert(be16(s[7], s[8]) == rate) by {
                assert(rate == 256 * (rate / 256) + rate % 256) by (nonlinear_arith);
            }
        },
    }
}

} // verus!
