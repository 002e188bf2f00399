//! What the server does with one message read from a connection.
//!
//! A connection is read as a tag byte, then the tag's fixed-length body. A
//! message that does not decode is dropped: no reply goes out and the byte
//! source is left as it was, so the connection can go on with its next tag.
use vstd::prelude::*;
use crate::source::{
    ByteSource,
    read_bytes,
    read_count,
    seek_outcome,
    pos_after_seek,
};
use crate::wire::{
    Request,
    parse_of,
    parse_request,
    seek_reply_bytes,
    read_reply_bytes,
    encode_seek_reply,
    encode_read_reply,
};

verus! {

/// The reply to a request, before it is encoded.
pub enum Reply {
    /// The new position after a seek, or none where the seek failed.
    Seek(Option<u64>),
    /// The bytes that a read of `amount` produced; fewer than `amount`
    /// at the end of the stream.
    Read { data: Vec<u8>, amount: u64 },
}

/// The bytes of a reply on the wire.
pub open spec fn reply_bytes(r: Reply) -> Seq<u8> {
    match r {
        Reply::Seek(p) => seek_reply_bytes(p),
        Reply::Read { data, amount } => read_reply_bytes(data@, amount as nat),
    }
}

/// The bytes of the reply to `req`, sent by a server whose stream holds
/// `content` and stands at `pos`.
pub open spec fn response_bytes(content: Seq<u8>, pos: nat, req: Request) -> Seq<u8> {
    match req {
        Request::Read(amount) => read_reply_bytes(
            read_bytes(content, pos, amount as nat),
            amount as nat,
        ),
        Request::Seek(f) => seek_reply_bytes(seek_outcome(content.len(), pos, f)),
    }
}

/// Where the stream stands after the server has served `req` at `pos`.
pub open spec fn pos_after(content: Seq<u8>, pos: nat, req: Request) -> nat {
    match req {
        Request::Read(amount) => pos + read_count(content.len(), pos, amount as nat),
        Request::Seek(f) => pos_after_seek(content.len(), pos, f),
    }
}

impl Reply {
    /// The reply holds no more data than was asked for.
    pub open spec fn wf(&self) -> bool {
        match self {
            Reply::Seek(_) => true,
            Reply::Read { data, amount } => data@.len() <= *amount,
        }
    }

    /// How many bytes the reply takes on the wire.
    pub open spec fn wire_len(&self) -> nat {
        match self {
            Reply::Seek(Some(_)) => 9,
            Reply::Seek(None) => 1,
            Reply::Read { amount, .. } => (*amount + 8) as nat,
        }
    }

    /// Encodes the reply.
    pub fn to_bytes(&self) -> (out: Vec<u8>)
        requires
            self.wf(),
            self.wire_len() <= usize::MAX,
        ensures
            out@ == reply_bytes(*self),
    {
        match self {
            Reply::Seek(p) => encode_seek_reply(*p),
            Reply::Read { data, amount } => encode_read_reply(data.as_slice(), *amount),
        }
    }
}

/// A server's state: the one byte stream that all its connections share.
pub struct Server {
    source: ByteSource,
}

impl Server {
    /// The bytes of the served stream.
    pub closed spec fn content(&self) -> Seq<u8> {
        self.source.content()
    }

    /// The current position in the served stream.
    pub closed spec fn cursor(&self) -> nat {
        self.source.cursor()
    }

    /// The position lies within the stream.
    pub closed spec fn wf(&self) -> bool {
        self.source.wf()
    }

    /// A server of `source`.
    pub fn new(source: ByteSource) -> (r: Server)
        requires
            source.wf(),
        ensures
            r.wf(),
            r.content() == source.content(),
            r.cursor() == source.cursor(),
    {
        Server { source }
    }

    /// The current position in the served stream.
    pub fn position(&self) -> (r: u64)
        ensures
            r == self.cursor(),
    {
        self.source.position()
    }

    /// Carries out `req` on the stream and returns its reply.
    pub fn respond(&mut self, req: Request) -> (r: Reply)
        requires
            old(self).wf(),
        ensures
            final(self).wf(),
            r.wf(),
            final(self).content() == old(self).content(),
            reply_bytes(r) == response_bytes(old(self).content(), old(self).cursor(), req),
            final(self).cursor() == pos_after(old(self).content(), old(self).cursor(), req),
            req matches Request::Read(a) ==> r.wire_len() == a + 8,
            req is Seek ==> r.wire_len() <= 9,
    {
        match req {
            Request::Read(amount) => {
                let data = self.source.read(amount);
                Reply::Read { data, amount }
            },
            Request::Seek(f) => Reply::Seek(self.source.seek(f)),
        }
    }

    /// Handles the message made of `tag` and `body`. A message that does not
    /// decode gets no reply and leaves the stream as it was.
    pub fn handle(&mut self, tag: u8, body: &[u8]) -> (r: Option<Reply>)
        requires
            old(self).wf(),
        ensures
            final(self).wf(),
            final(self).content() == old(self).content(),
            match parse_of(tag, body@) {
                None => r is None && final(self).cursor() == old(self).cursor(),
                Some(req) => r matches Some(reply) && reply.wf() && reply_bytes(reply)
                    == response_bytes(old(self).content(), old(self).cursor(), req)
                    && final(self).cursor() == pos_after(
                    old(self).content(),
                    old(self).cursor(),
                    req,
                ),
            },
    {
        match parse_request(tag, body) {
            Some(req) => Some(self.respond(req)),
            None => None,
        }
    }
}

} // verus!
