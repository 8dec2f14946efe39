//! Correlated request/response transport over a duplex frame channel.
//!
//! One request is outstanding at a time.  While a reply is awaited, every
//! frame read that does not echo the request's four-byte correlation header
//! is an unsolicited notification and is queued in arrival order rather than
//! discarded.  The raw reads and writes happen outside this crate; the
//! decisions they feed — does a frame answer the pending request, is it
//! buffered, has the deadline passed — are made here.

use std::collections::VecDeque;

use vstd::prelude::*;

use crate::error::Error;

verus! {

/// How long one blocking read waits for a frame while a reply is awaited,
/// in milliseconds.
pub const PER_READ_TIMEOUT_MS: i32 = 500;

/// The overall deadline of one request across repeated reads, in
/// milliseconds.
pub const REQUEST_DEADLINE_MS: u64 = 2000;

/// Whether `resp` answers a request with header `req`: a response correlates
/// to a request iff its first four bytes equal the request's first four
/// bytes.
pub open spec fn correlates(req: Seq<u8>, resp: Seq<u8>) -> bool {
    resp.len() >= 4 && resp.subrange(0, 4) == req.subrange(0, 4)
}

/// Checks whether `resp` carries the correlation header of `req`.
pub fn frame_correlates(req: &Vec<u8>, resp: &Vec<u8>) -> (r: bool)
    requires
        req@.len() >= 4,
    ensures
        r == correlates(req@, resp@),
{
    if resp.len() < 4 {
        return false;
    }
    let r = resp[0] == req[0] && resp[1] == req[1] && resp[2] == req[2] && resp[3] == req[3];
    proof {
        if r {
            assert(resp@.subrange(0, 4) =~= req@.subrange(0, 4));
        } else {
            if correlates(req@, resp@) {
                assert(resp@.subrange(0, 4)[0] == req@.subrange(0, 4)[0]);
                assert(resp@.subrange(0, 4)[1] == req@.subrange(0, 4)[1]);
                assert(resp@.subrange(0, 4)[2] == req@.subrange(0, 4)[2]);
                assert(resp@.subrange(0, 4)[3] == req@.subrange(0, 4)[3]);
            }
        }
    }
    r
}

/// The request/response channel state: a FIFO queue of unsolicited frames
/// picked up while replies were awaited.
///
/// Its view is the queue's contents, oldest first.
pub struct Transport {
    buffer: VecDeque<Vec<u8>>,
}

impl View for Transport {
    type V = Seq<Seq<u8>>;

    closed spec fn view(&self) -> Seq<Seq<u8>> {
        self.buffer@.map_values(|m: Vec<u8>| m@)
    }
}

impl Transport {
    /// A transport with nothing buffered.
    pub fn new() -> (r: Transport)
        ensures
            r@ == Seq::<Seq<u8>>::empty(),
    {
        let r = Transport { buffer: VecDeque::new() };
        proof {
            assert(r@ =~= Seq::<Seq<u8>>::empty());
        }
        r
    }

    /// The number of buffered unsolicited messages.
    pub fn buffered_len(&self) -> (r: usize)
        ensures
            r == self@.len(),
    {
        self.buffer.len()
    }

    /// Decides what one read attempt means for the request awaiting a reply.
    ///
    /// A frame carrying the request's correlation header is the reply
    /// (`Ok(Some(..))`) and leaves the queue untouched.  An empty read means
    /// no data arrived within this slice of the timeout.  Any other frame is
    /// an unsolicited notification and is pushed to the back of the queue,
    /// never lost.  Either way, once the overall deadline has passed the
    /// request fails with a timeout; before that the caller keeps reading
    /// (`Ok(None)`).
    pub fn handle_read(&mut self, request: &Vec<u8>, data: Vec<u8>, deadline_exceeded: bool) -> (r:
        Result<Option<Vec<u8>>, Error>)
        requires
            request@.len() >= 4,
        ensures
            correlates(request@, data@) ==> {
                &&& r matches Ok(reply) && reply matches Some(resp) && resp@ == data@
                &&& final(self)@ == old(self)@
            },
            !correlates(request@, data@) ==> {
                &&& final(self)@ == if data@.len() == 0 {
                    old(self)@
                } else {
                    old(self)@.push(data@)
                }
                &&& deadline_exceeded ==> r == Err::<Option<Vec<u8>>, Error>(Error::Timeout)
                &&& !deadline_exceeded ==> r == Ok::<Option<Vec<u8>>, Error>(None)
            },
    {
        if frame_correlates(request, &data) {
            Ok(Some(data))
        } else {
            if data.len() > 0 {
                let ghost pre = self.buffer@;
                self.buffer.push_back(data);
                proof {
                    assert(self@ =~= pre.map_values(|m: Vec<u8>| m@).push(
                        self.buffer@[pre.len() as int]@,
                    ));
                }
            }
            if deadline_exceeded {
                Err(Error::Timeout)
            } else {
                Ok(None)
            }
        }
    }

    /// Pops the oldest buffered unsolicited message, if any.
    ///
    /// The queue preserves arrival order, so repeated calls return buffered
    /// messages exactly as they came in, before any fresh read is needed.
    pub fn pop_buffered(&mut self) -> (r: Option<Vec<u8>>)
        ensures
            old(self)@.len() == 0 ==> {
                &&& r is None
                &&& final(self)@ == old(self)@
            },
            old(self)@.len() > 0 ==> {
                &&& r matches Some(m) && m@ == old(self)@.first()
                &&& final(self)@ == old(self)@.drop_first()
            },
    {
        let ghost pre = self.buffer@;
        let r = self.buffer.pop_front();
        proof {
            if pre.len() > 0 {
                assert(self@ =~= pre.map_values(|m: Vec<u8>| m@).drop_first());
            }
        }
        r
    }
}

/// FIFO order of unsolicited messages: if the queue holds messages `q` and
/// `k` of them have already been popped, the next pop yields exactly `q[k]`,
/// so the messages buffered while a reply was awaited come back out in their
/// original arrival order.
pub proof fn lemma_fifo_order(q: Seq<Seq<u8>>, k: int)
    requires
        0 <= k < q.len(),
    ensures
        q.skip(k).first() == q[k],
        q.skip(k).drop_first() == q.skip(k + 1),
{
    assert(q.skip(k).drop_first() =~= q.skip(k + 1));
}

} // verus!
