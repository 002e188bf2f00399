//! How a client reads the server's replies.
//!
//! A seek reply is a status byte, followed by the new position only where the
//! status is success. A read reply to a request of `amount` bytes is `amount`
//! payload bytes and then the count of real bytes among them; the rest of the
//! payload is filler.
use vstd::prelude::*;
use crate::wire::{RESULT_OK, from_be8, u64_from_be_at};

verus! {

/// How many bytes a seek reply whose first byte is `status` takes.
pub open spec fn seek_reply_len_of(status: u8) -> nat {
    if status == RESULT_OK {
        9
    } else {
        1
    }
}

/// The new position that a seek reply reports, or none where it reports
/// failure or is malformed.
pub open spec fn seek_reply_value(s: Seq<u8>) -> Option<u64> {
    if s.len() == 9 && s[0] == RESULT_OK {
        Some(from_be8(s.drop_first()))
    } else {
        None
    }
}

/// The count of real bytes that a read reply ends with.
pub open spec fn read_reply_count(s: Seq<u8>) -> u64 {
    from_be8(s.subrange(s.len() - 8, s.len() as int))
}

/// The real bytes of a read reply: the first `count` bytes of its payload.
/// None where the reply is shorter than its count field or reports more bytes
/// than its payload holds.
pub open spec fn read_reply_data(s: Seq<u8>) -> Option<Seq<u8>> {
    if s.len() >= 8 && read_reply_count(s) <= s.len() - 8 {
        Some(s.subrange(0, read_reply_count(s) as int))
    } else {
        None
    }
}

/// How many bytes a seek reply takes, from its first byte.
pub fn seek_reply_len(status: u8) -> (r: usize)
    ensures
        r == seek_reply_len_of(status),
{
    if status == RESULT_OK {
        9
    } else {
        1
    }
}

/// Decodes a seek reply: the new position, or none where the server
/// reported failure or the reply is malformed.
pub fn decode_seek_reply(reply: &[u8]) -> (r: Option<u64>)
    ensures
        r == seek_reply_value(reply@),
{
    if reply.len() == 9 && reply[0] == RESULT_OK {
        let v = u64_from_be_at(reply, 1);
        assert(reply@.subrange(1, 9) =~= reply@.drop_first());
        Some(v)
    } else {
        None
    }
}

/// Decodes a read reply into the real bytes that it carries; none where the
/// reply is malformed.
pub fn decode_read_reply(reply: &[u8]) -> (r: Option<Vec<u8>>)
    ensures
        r matches Some(v) ==> read_reply_data(reply@) == Some(v@),
        r is None ==> read_reply_data(reply@) is None,
{
    if reply.len() < 8 {
        return None;
    }
    let payload_len: usize = reply.len() - 8;
    let count: u64 = u64_from_be_at(reply, payload_len);
    if count > payload_len as u64 {
        return None;
    }
    let n: usize = count as usize;
    let mut out: Vec<u8> = Vec::new();
    let mut i: usize = 0;
    while i < n
        invariant
            i <= n <= reply@.len(),
            out@ == reply@.subrange(0, i as int),
        decreases n - i,
    {
        out.push(reply[i]);
        i = i + 1;
        assert(out@ =~= reply@.subrange(0, i as int));
    }
    Some(out)
}

} // verus!
