//! Connection-setup operations: protocol-version ping, button enabling,
//! and device-name assembly.
//!
//! Each operation is a request body builder plus a response reader; sending
//! the frames is the caller's business.

use vstd::prelude::*;

use crate::error::Error;

verus! {

/// The request body of the protocol-version ping.  The last byte is an echo
/// token the device must send back.
pub fn ping_body() -> (r: Vec<u8>)
    ensures
        r@ == seq![0x11u8, 0x00u8, 0x00u8, 0xafu8],
{
    let mut body: Vec<u8> = Vec::new();
    body.push(0x11);
    body.push(0x00);
    body.push(0x00);
    body.push(0xaf);
    proof {
        assert(body@ =~= seq![0x11u8, 0x00u8, 0x00u8, 0xafu8]);
    }
    body
}

/// The protocol version a ping response announces, and whether the response
/// echoed the ping token back intact.
#[derive(Debug, Clone, Copy, PartialEq, Eq, Structural)]
pub struct ProtocolVersion {
    /// The major version number.
    pub major: u8,
    /// The minor version number.
    pub minor: u8,
    /// Whether the response echoed the ping token; a mismatch is a protocol
    /// warning, not a failure.
    pub echo_ok: bool,
}

/// Reads the version numbers and the echo token out of a ping response.
pub fn parse_protocol_version(resp: &Vec<u8>) -> (r: Result<ProtocolVersion, Error>)
    ensures
        resp@.len() >= 7 ==> r == Ok::<ProtocolVersion, Error>(ProtocolVersion {
            major: resp@[4],
            minor: resp@[5],
            echo_ok: resp@[6] == 0xaf,
        }),
        resp@.len() < 7 ==> r == Err::<ProtocolVersion, Error>(Error::ResponseTooShort),
{
    if resp.len() < 7 {
        return Err(Error::ResponseTooShort);
    }
    Ok(ProtocolVersion { major: resp[4], minor: resp[5], echo_ok: resp[6] == 0xaf })
}

/// Whether a protocol version is the one this engine was validated against.
/// Any other version degrades gracefully: it is worth a warning, nothing
/// more.
pub fn version_matches(version: &ProtocolVersion) -> (r: bool)
    ensures
        r == (version.major == 4 && version.minor == 2),
{
    version.major == 4 && version.minor == 2
}

/// The request body that enables or disables G-key button reporting.
pub fn enable_buttons_body(enable: bool) -> (r: Vec<u8>)
    ensures
        r@ == seq![0x21u8, if enable { 1u8 } else { 0u8 }],
{
    let mut body: Vec<u8> = Vec::new();
    body.push(0x21);
    body.push(if enable { 1 } else { 0 });
    proof {
        assert(body@ =~= seq![0x21u8, if enable { 1u8 } else { 0u8 }]);
    }
    body
}

/// Whether an enable-buttons response echoed the requested flag back; a
/// mismatch is a protocol warning, not a failure.
pub fn enable_buttons_echoed(resp: &Vec<u8>, enable: bool) -> (r: Result<bool, Error>)
    ensures
        resp@.len() >= 5 ==> r == Ok::<bool, Error>(resp@[4] == if enable { 1u8 } else { 0u8 }),
        resp@.len() < 5 ==> r == Err::<bool, Error>(Error::ResponseTooShort),
{
    if resp.len() < 5 {
        return Err(Error::ResponseTooShort);
    }
    Ok(resp[4] == if enable { 1 } else { 0 })
}

/// The request body that asks the device-name feature for the name length.
pub fn name_len_request_body() -> (r: Vec<u8>)
    ensures
        r@ == seq![0x01u8],
{
    let mut body: Vec<u8> = Vec::new();
    body.push(0x01);
    proof {
        assert(body@ =~= seq![0x01u8]);
    }
    body
}

/// Collects the device name, which arrives in chunks of at most 16 bytes,
/// each fetched by its part number.
#[derive(Debug, PartialEq, Eq)]
pub struct NameAssembly {
    /// The total name length the device announced.
    pub total: u8,
    /// The name bytes collected so far.
    pub collected: Vec<u8>,
}

impl NameAssembly {
    /// Well-formedness: never more bytes collected than announced.
    pub open spec fn wf(&self) -> bool {
        self.collected@.len() <= self.total
    }

    /// Whether the whole announced name has been collected.
    pub open spec fn spec_done(&self) -> bool {
        self.collected@.len() >= self.total
    }

    /// How many bytes the next part contributes: the rest of the name, but
    /// at most the 16 bytes a chunk can carry.
    pub open spec fn spec_take(&self) -> int {
        if self.total - self.collected@.len() <= 16 {
            self.total - self.collected@.len()
        } else {
            16
        }
    }

    /// Starts an assembly from the name-length response.
    pub fn from_len_response(resp: &Vec<u8>) -> (r: Result<NameAssembly, Error>)
        ensures
            resp@.len() >= 5 ==> (r matches Ok(a) && a.total == resp@[4] && a.collected@
                == Seq::<u8>::empty() && a.wf()),
            resp@.len() < 5 ==> r == Err::<NameAssembly, Error>(Error::ResponseTooShort),
    {
        if resp.len() < 5 {
            return Err(Error::ResponseTooShort);
        }
        Ok(NameAssembly { total: resp[4], collected: Vec::new() })
    }

    /// Whether the whole announced name has been collected.
    pub fn done(&self) -> (r: bool)
        ensures
            r == self.spec_done(),
    {
        self.collected.len() >= self.total as usize
    }

    /// The request body that fetches the next missing part of the name.
    pub fn next_request_body(&self) -> (r: Vec<u8>)
        requires
            self.wf(),
            !self.spec_done(),
        ensures
            r@ == seq![0x11u8, (self.collected@.len() / 16) as u8],
    {
        let mut body: Vec<u8> = Vec::new();
        body.push(0x11);
        body.push((self.collected.len() / 16) as u8);
        proof {
            assert(body@ =~= seq![0x11u8, (self.collected@.len() / 16) as u8]);
        }
        body
    }

    /// Appends the name bytes of one part response, which carries the next
    /// `spec_take()` bytes of the name starting at byte 4.
    pub fn absorb_part(&mut self, resp: &Vec<u8>) -> (r: Result<(), Error>)
        requires
            old(self).wf(),
            !old(self).spec_done(),
        ensures
            resp@.len() >= 4 + old(self).spec_take() ==> {
                &&& r == Ok::<(), Error>(())
                &&& final(self).total == old(self).total
                &&& final(self).collected@ == old(self).collected@ + resp@.subrange(
                    4,
                    4 + old(self).spec_take(),
                )
                &&& final(self).wf()
                &&& final(self).collected@.len() > old(self).collected@.len()
            },
            resp@.len() < 4 + old(self).spec_take() ==> {
                &&& r == Err::<(), Error>(Error::ResponseTooShort)
                &&& *final(self) == *old(self)
            },
    {
        let rest: usize = self.total as usize - self.collected.len();
        let take: usize = if rest <= 16 {
            rest
        } else {
            16
        };
        if resp.len() < 4 + take {
            return Err(Error::ResponseTooShort);
        }
        let ghost pre = self.collected@;
        let mut i: usize = 0;
        while i < take
            invariant
                0 <= i <= take,
                take as int == old(self).spec_take(),
                resp@.len() >= 4 + take,
                self.total == old(self).total,
                self.collected@ == pre + resp@.subrange(4, 4 + i as int),
                pre == old(self).collected@,
            decreases take - i,
        {
            self.collected.push(resp[4 + i]);
            i = i + 1;
            proof {
                assert(self.collected@ =~= pre + resp@.subrange(4, 4 + i as int));
            }
        }
        Ok(())
    }
}

} // verus!
