//! Properties of the protocol as a whole: what a client decodes from the
//! server's replies, given the stream that the server holds.
use vstd::prelude::*;
use crate::client::{read_reply_count, read_reply_data, seek_reply_value};
use crate::server::{pos_after, response_bytes};
use crate::source::{read_bytes, read_count, seek_outcome, seek_target};
use crate::wire::{
    Request,
    SeekFrom,
    be8,
    lemma_be8_of_from_be8,
    lemma_from_be8_of_be8,
    parse_of,
    read_reply_bytes,
    request_bytes,
    seek_reply_bytes,
    zeros,
};

verus! {

/// A request decodes, from its tag and the body after it, to itself.
pub proof fn law_request_round_trip(req: Request)
    ensures
        parse_of(request_bytes(req)[0], request_bytes(req).drop_first()) == Some(req),
{
    let b = request_bytes(req);
    match req {
        Request::Read(a) => {
            assert(b.drop_first() =~= be8(a));
            lemma_from_be8_of_be8(a);
        },
        Request::Seek(f) => {
            let body = b.drop_first();
            match f {
                SeekFrom::Start(o) => {
                    assert(body.drop_first() =~= be8(o));
                    lemma_from_be8_of_be8(o);
                },
                SeekFrom::End(o) => {
                    assert(body.drop_first() =~= be8(o as u64));
                    lemma_from_be8_of_be8(o as u64);
                    assert(((o as u64) as i64) == o) by (bit_vector);
                },
                SeekFrom::Current(o) => {
                    assert(body.drop_first() =~= be8(o as u64));
                    lemma_from_be8_of_be8(o as u64);
                    assert(((o as u64) as i64) == o) by (bit_vector);
                },
            }
        },
    }
}

/// A message that decodes to a request is the encoding of that request.
pub proof fn law_parse_then_encode(tag: u8, body: Seq<u8>)
    requires
        parse_of(tag, body) is Some,
    ensures
        request_bytes(parse_of(tag, body).unwrap()) == seq![tag] + body,
{
    let req = parse_of(tag, body).unwrap();
    if body.len() == 8 {
        lemma_be8_of_from_be8(body);
        assert(request_bytes(req) =~= seq![tag] + body);
    } else {
        let rest = body.drop_first();
        lemma_be8_of_from_be8(rest);
        let bits = crate::wire::from_be8(rest);
        assert(((bits as i64) as u64) == bits) by (bit_vector);
        assert(body =~= seq![body[0]] + rest);
        assert(request_bytes(req) =~= seq![tag] + body);
    }
}

/// A client decodes from a seek reply what the server put in it.
pub proof fn law_seek_reply_round_trip(r: Option<u64>)
    ensures
        seek_reply_value(seek_reply_bytes(r)) == r,
{
    if let Some(p) = r {
        assert(seek_reply_bytes(r).drop_first() =~= be8(p));
        lemma_from_be8_of_be8(p);
    }
}

/// A client decodes from a read reply the real bytes that the server put in
/// it, whatever filler follows them.
pub proof fn law_read_reply_round_trip(data: Seq<u8>, amount: u64)
    requires
        data.len() <= amount,
    ensures
        read_reply_data(read_reply_bytes(data, amount as nat)) == Some(data),
        read_reply_count(read_reply_bytes(data, amount as nat)) == data.len(),
{
    let s = read_reply_bytes(data, amount as nat);
    let head = data + zeros((amount - data.len()) as nat);
    assert(s.subrange(s.len() - 8, s.len() as int) =~= be8(data.len() as u64));
    lemma_from_be8_of_be8(data.len() as u64);
    assert(s.subrange(0, data.len() as int) =~= data);
}

/// A seek to an absolute offset within the stream succeeds, the reply
/// reports that offset, and the stream then stands there.
pub proof fn law_seek_start_in_range(content: Seq<u8>, pos: nat, offset: u64)
    requires
        pos <= content.len(),
        offset <= content.len(),
    ensures
        seek_reply_value(response_bytes(content, pos, Request::Seek(SeekFrom::Start(offset))))
            == Some(offset),
        pos_after(content, pos, Request::Seek(SeekFrom::Start(offset))) == offset,
{
    assert(seek_outcome(content.len(), pos, SeekFrom::Start(offset)) == Some(offset));
    law_seek_reply_round_trip(Some(offset));
}

/// A read of no more bytes than remain produces exactly the next `n` bytes
/// of the stream, reports `n` of them, and moves the position by `n`.
pub proof fn law_read_within(content: Seq<u8>, pos: nat, n: u64)
    requires
        pos + n <= content.len(),
    ensures
        read_reply_count(response_bytes(content, pos, Request::Read(n))) == n,
        read_reply_data(response_bytes(content, pos, Request::Read(n))) == Some(
            content.subrange(pos as int, pos + n),
        ),
        pos_after(content, pos, Request::Read(n)) == pos + n,
{
    assert(read_count(content.len(), pos, n as nat) == n);
    law_read_reply_round_trip(read_bytes(content, pos, n as nat), n);
}

/// A read of more bytes than remain reports what remains as its count, and
/// every payload byte past that count is zero.
pub proof fn law_read_past_end(content: Seq<u8>, pos: nat, n: u64)
    requires
        pos <= content.len(),
        content.len() < pos + n,
    ensures
        read_reply_count(response_bytes(content, pos, Request::Read(n))) == content.len() - pos,
        response_bytes(content, pos, Request::Read(n)).len() == n + 8,
        forall|i: int|
            content.len() - pos <= i < n ==> #[trigger] response_bytes(
                content,
                pos,
                Request::Read(n),
            )[i] == 0,
        pos_after(content, pos, Request::Read(n)) == content.len(),
{
    let data = read_bytes(content, pos, n as nat);
    assert(data.len() == content.len() - pos);
    law_read_reply_round_trip(data, n);
    let s = response_bytes(content, pos, Request::Read(n));
    assert forall|i: int| content.len() - pos <= i < n implies s[i] == 0 by {
        assert(s[i] == zeros((n - data.len()) as nat)[i - data.len()]);
    }
}

/// Two reads in a row produce adjacent ranges of the stream: together they
/// produce what one read of both amounts does, and leave the stream where
/// that read would.
pub proof fn law_consecutive_reads(content: Seq<u8>, pos: nat, a: u64, b: u64)
    requires
        pos <= content.len(),
        a + b <= u64::MAX,
    ensures
        read_bytes(content, pos, a as nat) + read_bytes(
            content,
            pos_after(content, pos, Request::Read(a)),
            b as nat,
        ) == read_bytes(content, pos, (a + b) as nat),
        pos_after(content, pos_after(content, pos, Request::Read(a)), Request::Read(b))
            == pos_after(content, pos, Request::Read((a + b) as u64)),
{
    let mid = pos_after(content, pos, Request::Read(a));
    assert(read_bytes(content, pos, a as nat) + read_bytes(content, mid, b as nat) =~= read_bytes(
        content,
        pos,
        (a + b) as nat,
    ));
}

/// A seek whose target lies outside the stream is reported as failed and
/// leaves the position where it was.
pub proof fn law_seek_out_of_range(content: Seq<u8>, pos: nat, f: SeekFrom)
    requires
        pos <= content.len(),
        !(0 <= seek_target(content.len(), pos, f) <= content.len()),
    ensures
        seek_reply_value(response_bytes(content, pos, Request::Seek(f))) is None,
        pos_after(content, pos, Request::Seek(f)) == pos,
{
}

} // verus!
