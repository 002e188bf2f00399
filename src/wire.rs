//! Fixed-layout binary encoding of the protocol's messages.
//!
//! All multi-byte integers are eight bytes, big-endian. A message is
//! delimited by its tag byte and the fixed body length of that tag.
use vstd::prelude::*;

verus! {

/// Tag byte of a read request.
pub const OPERATION_READ: u8 = 0xFF;

/// Tag byte of a seek request.
pub const OPERATION_SEEK: u8 = 0xFE;

/// Origin byte of a seek relative to the start of the stream.
pub const SEEK_FROM_START: u8 = 0;

/// Origin byte of a seek relative to the end of the stream.
pub const SEEK_FROM_END: u8 = 1;

/// Origin byte of a seek relative to the current position.
pub const SEEK_FROM_CURRENT: u8 = 2;

/// Status byte of a successful seek reply.
pub const RESULT_OK: u8 = 0;

/// Status byte of a failed seek reply.
pub const RESULT_ERR: u8 = 1;

/// The eight big-endian bytes of `v`.
pub open spec fn be8(v: u64) -> Seq<u8> {
    seq![
        (v >> 56u64) as u8,
        (v >> 48u64) as u8,
        (v >> 40u64) as u8,
        (v >> 32u64) as u8,
        (v >> 24u64) as u8,
        (v >> 16u64) as u8,
        (v >> 8u64) as u8,
        v as u8,
    ]
}

/// The value of the eight big-endian bytes at the front of `s`.
pub open spec fn from_be8(s: Seq<u8>) -> u64 {
    (s[0] as u64) << 56u64 | (s[1] as u64) << 48u64 | (s[2] as u64) << 40u64 | (s[3] as u64)
        << 32u64 | (s[4] as u64) << 24u64 | (s[5] as u64) << 16u64 | (s[6] as u64) << 8u64 | (
    s[7] as u64)
}

/// Decoding the encoding of a value gives the value back.
pub proof fn lemma_from_be8_of_be8(v: u64)
    ensures
        from_be8(be8(v)) == v,
{
    let s = be8(v);
    assert(s[0] == (v >> 56u64) as u8);
    assert(s[7] == v as u8);
    assert(v == (((v >> 56u64) as u8) as u64) << 56u64 | (((v >> 48u64) as u8) as u64) << 48u64
        | (((v >> 40u64) as u8) as u64) << 40u64 | (((v >> 32u64) as u8) as u64) << 32u64 | (((v
        >> 24u64) as u8) as u64) << 24u64 | (((v >> 16u64) as u8) as u64) << 16u64 | (((v
        >> 8u64) as u8) as u64) << 8u64 | ((v as u8) as u64)) by (bit_vector);
}

/// Encoding the value of eight bytes gives the bytes back.
pub proof fn lemma_be8_of_from_be8(s: Seq<u8>)
    requires
        s.len() == 8,
    ensures
        be8(from_be8(s)) == s,
{
    let (b0, b1, b2, b3, b4, b5, b6, b7) = (s[0], s[1], s[2], s[3], s[4], s[5], s[6], s[7]);
    let v = from_be8(s);
    assert(v == (b0 as u64) << 56u64 | (b1 as u64) << 48u64 | (b2 as u64) << 40u64 | (b3 as u64)
        << 32u64 | (b4 as u64) << 24u64 | (b5 as u64) << 16u64 | (b6 as u64) << 8u64 | (
    b7 as u64));
    assert(((v >> 56u64) as u8) == b0 && ((v >> 48u64) as u8) == b1 && ((v >> 40u64) as u8) == b2
        && ((v >> 32u64) as u8) == b3 && ((v >> 24u64) as u8) == b4 && ((v >> 16u64) as u8) == b5
        && ((v >> 8u64) as u8) == b6 && (v as u8) == b7) by (bit_vector)
        requires
            v == (b0 as u64) << 56u64 | (b1 as u64) << 48u64 | (b2 as u64) << 40u64 | (b3 as u64)
                << 32u64 | (b4 as u64) << 24u64 | (b5 as u64) << 16u64 | (b6 as u64) << 8u64 | (
            b7 as u64),
    ;
    assert(be8(v) =~= s);
}

/// Appends the eight big-endian bytes of `v` to `out`.
pub fn push_u64(out: &mut Vec<u8>, v: u64)
    ensures
        final(out)@ == old(out)@ + be8(v),
{
    out.push((v >> 56u64) as u8);
    out.push((v >> 48u64) as u8);
    out.push((v >> 40u64) as u8);
    out.push((v >> 32u64) as u8);
    out.push((v >> 24u64) as u8);
    out.push((v >> 16u64) as u8);
    out.push((v >> 8u64) as u8);
    out.push(v as u8);
    assert(final(out)@ =~= old(out)@ + be8(v));
}

/// The eight big-endian bytes of `v`.
pub fn u64_to_be(v: u64) -> (r: Vec<u8>)
    ensures
        r@ == be8(v),
{
    let mut r: Vec<u8> = Vec::new();
    push_u64(&mut r, v);
    assert(r@ =~= be8(v));
    r
}

/// The value of the eight big-endian bytes of `b` that start at `at`.
pub fn u64_from_be_at(b: &[u8], at: usize) -> (r: u64)
    requires
        at + 8 <= b@.len(),
    ensures
        r == from_be8(b@.subrange(at as int, at + 8)),
{
    (b[at] as u64) << 56u64 | (b[at + 1] as u64) << 48u64 | (b[at + 2] as u64) << 40u64 | (b[at
        + 3] as u64) << 32u64 | (b[at + 4] as u64) << 24u64 | (b[at + 5] as u64) << 16u64 | (b[at
        + 6] as u64) << 8u64 | (b[at + 7] as u64)
}

/// Where a seek counts its offset from, with the offset.
#[derive(Clone, Copy, Debug, PartialEq, Eq, Structural)]
pub enum SeekFrom {
    /// An absolute position.
    Start(u64),
    /// A signed delta from the end of the stream.
    End(i64),
    /// A signed delta from the current position.
    Current(i64),
}

/// A request from a client.
#[derive(Clone, Copy, Debug, PartialEq, Eq, Structural)]
pub enum Request {
    /// Read up to this many bytes from the current position.
    Read(u64),
    /// Move the current position.
    Seek(SeekFrom),
}

/// The origin byte of a seek.
pub open spec fn origin_byte(f: SeekFrom) -> u8 {
    match f {
        SeekFrom::Start(_) => SEEK_FROM_START,
        SeekFrom::End(_) => SEEK_FROM_END,
        SeekFrom::Current(_) => SEEK_FROM_CURRENT,
    }
}

/// The offset of a seek as the eight bytes go on the wire.
pub open spec fn offset_bits(f: SeekFrom) -> u64 {
    match f {
        SeekFrom::Start(o) => o,
        SeekFrom::End(o) => o as u64,
        SeekFrom::Current(o) => o as u64,
    }
}

/// The bytes of a request: tag, then its fixed-length body.
pub open spec fn request_bytes(r: Request) -> Seq<u8> {
    match r {
        Request::Read(amount) => seq![OPERATION_READ] + be8(amount),
        Request::Seek(f) => seq![OPERATION_SEEK, origin_byte(f)] + be8(offset_bits(f)),
    }
}

/// The length of the body that follows a tag, or none for a tag that is no request.
pub open spec fn body_len_of(tag: u8) -> Option<nat> {
    if tag == OPERATION_READ {
        Some(8)
    } else if tag == OPERATION_SEEK {
        Some(9)
    } else {
        None
    }
}

/// The seek that an origin byte and offset bits stand for, if the origin is known.
pub open spec fn seek_of(origin: u8, bits: u64) -> Option<SeekFrom> {
    if origin == SEEK_FROM_START {
        Some(SeekFrom::Start(bits))
    } else if origin == SEEK_FROM_END {
        Some(SeekFrom::End(bits as i64))
    } else if origin == SEEK_FROM_CURRENT {
        Some(SeekFrom::Current(bits as i64))
    } else {
        None
    }
}

/// The request that a tag and a body stand for, or none for a malformed message.
pub open spec fn parse_of(tag: u8, body: Seq<u8>) -> Option<Request> {
    if tag == OPERATION_READ && body.len() == 8 {
        Some(Request::Read(from_be8(body)))
    } else if tag == OPERATION_SEEK && body.len() == 9 {
        match seek_of(body[0], from_be8(body.drop_first())) {
            Some(f) => Some(Request::Seek(f)),
            None => None,
        }
    } else {
        None
    }
}

/// The bytes of the reply to a seek: the new position, or failure.
pub open spec fn seek_reply_bytes(r: Option<u64>) -> Seq<u8> {
    match r {
        Some(pos) => seq![RESULT_OK] + be8(pos),
        None => seq![RESULT_ERR],
    }
}

/// `n` zero bytes.
pub open spec fn zeros(n: nat) -> Seq<u8> {
    Seq::new(n, |i: int| 0u8)
}

/// The bytes of the reply to a read of `amount` bytes that produced `data`:
/// the data, zero filler up to `amount`, then the count of real bytes.
pub open spec fn read_reply_bytes(data: Seq<u8>, amount: nat) -> Seq<u8> {
    data + zeros((amount - data.len()) as nat) + be8(data.len() as u64)
}

/// Encodes a request.
pub fn encode_request(r: Request) -> (out: Vec<u8>)
    ensures
        out@ == request_bytes(r),
{
    let mut out: Vec<u8> = Vec::new();
    match r {
        Request::Read(amount) => {
            out.push(OPERATION_READ);
            push_u64(&mut out, amount);
        },
        Request::Seek(f) => {
            out.push(OPERATION_SEEK);
            let (origin, bits): (u8, u64) = match f {
                SeekFrom::Start(o) => (SEEK_FROM_START, o),
                SeekFrom::End(o) => (SEEK_FROM_END, o as u64),
                SeekFrom::Current(o) => (SEEK_FROM_CURRENT, o as u64),
            };
            out.push(origin);
            push_u64(&mut out, bits);
        },
    }
    assert(out@ =~= request_bytes(r));
    out
}

/// The length of the body that follows `tag`; none where `tag` is no request,
/// which makes the tag byte a message of its own that is skipped.
pub fn body_len(tag: u8) -> (r: Option<usize>)
    ensures
        r matches Some(n) ==> body_len_of(tag) == Some(n as nat),
        r is None ==> body_len_of(tag) is None,
{
    if tag == OPERATION_READ {
        Some(8)
    } else if tag == OPERATION_SEEK {
        Some(9)
    } else {
        None
    }
}

/// Decodes the message made of `tag` and `body`; none where the tag is no
/// request, the body has not the tag's length, or the origin byte is unknown.
pub fn parse_request(tag: u8, body: &[u8]) -> (r: Option<Request>)
    ensures
        r == parse_of(tag, body@),
{
    if tag == OPERATION_READ && body.len() == 8 {
        Some(Request::Read(u64_from_be_at(body, 0)))
    } else if tag == OPERATION_SEEK && body.len() == 9 {
        let bits = u64_from_be_at(body, 1);
        assert(body@.subrange(1, 9) =~= body@.drop_first());
        let origin = body[0];
        if origin == SEEK_FROM_START {
            Some(Request::Seek(SeekFrom::Start(bits)))
        } else if origin == SEEK_FROM_END {
            Some(Request::Seek(SeekFrom::End(bits as i64)))
        } else if origin == SEEK_FROM_CURRENT {
            Some(Request::Seek(SeekFrom::Current(bits as i64)))
        } else {
            None
        }
    } else {
        None
    }
}

/// Encodes the reply to a seek.
pub fn encode_seek_reply(r: Option<u64>) -> (out: Vec<u8>)
    ensures
        out@ == seek_reply_bytes(r),
{
    let mut out: Vec<u8> = Vec::new();
    match r {
        Some(pos) => {
            out.push(RESULT_OK);
            push_u64(&mut out, pos);
        },
        None => {
            out.push(RESULT_ERR);
        },
    }
    assert(out@ =~= seek_reply_bytes(r));
    out
}

/// Encodes the reply to a read of `amount` bytes that produced `data`.
pub fn encode_read_reply(data: &[u8], amount: u64) -> (out: Vec<u8>)
    requires
        data@.len() <= amount,
        amount + 8 <= usize::MAX,
    ensures
        out@ == read_reply_bytes(data@, amount as nat),
{
    let mut out: Vec<u8> = Vec::new();
    let mut i: usize = 0;
    while i < data.len()
        invariant
            i <= data@.len(),
            out@ == data@.subrange(0, i as int),
        decreases data@.len() - i,
    {
        out.push(data[i]);
        i = i + 1;
        assert(out@ =~= data@.subrange(0, i as int));
    }
    assert(out@ =~= data@);
    let amount: usize = amount as usize;
    while i < amount
        invariant
            data@.len() <= i <= amount,
            out@ == data@ + zeros((i - data@.len()) as nat),
        decreases amount - i,
    {
        out.push(0u8);
        i = i + 1;
        assert(out@ =~= data@ + zeros((i - data@.len()) as nat));
    }
    push_u64(&mut out, data.len() as u64);
    out
}

} // verus!
