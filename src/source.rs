//! An in-memory byte stream with a current position, read sequentially and
//! repositioned by absolute or relative seeks.
//!
//! A seek succeeds exactly when its target lies in `0..=len`; any other
//! target is refused and the position stays where it was.
use vstd::prelude::*;
use crate::wire::SeekFrom;

verus! {

/// The position that a seek aims at, in a stream of `len` bytes whose
/// current position is `pos`.
pub open spec fn seek_target(len: nat, pos: nat, f: SeekFrom) -> int {
    match f {
        SeekFrom::Start(o) => o as int,
        SeekFrom::End(o) => len + o,
        SeekFrom::Current(o) => pos + o,
    }
}

/// What a seek returns: the new position where the target lies in the
/// stream, none where it does not.
pub open spec fn seek_outcome(len: nat, pos: nat, f: SeekFrom) -> Option<u64> {
    let t = seek_target(len, pos, f);
    if 0 <= t <= len {
        Some(t as u64)
    } else {
        None
    }
}

/// The position after a seek.
pub open spec fn pos_after_seek(len: nat, pos: nat, f: SeekFrom) -> nat {
    match seek_outcome(len, pos, f) {
        Some(t) => t as nat,
        None => pos,
    }
}

/// How many bytes a read of `amount` produces at `pos`: all of them, or
/// what remains of the stream.
pub open spec fn read_count(len: nat, pos: nat, amount: nat) -> nat {
    if amount <= len - pos {
        amount
    } else {
        (len - pos) as nat
    }
}

/// The bytes that a read of `amount` produces at `pos`.
pub open spec fn read_bytes(content: Seq<u8>, pos: nat, amount: nat) -> Seq<u8> {
    content.subrange(pos as int, (pos + read_count(content.len(), pos, amount)) as int)
}

/// A stream of bytes held in memory, with a current position.
pub struct ByteSource {
    data: Vec<u8>,
    pos: usize,
}

impl ByteSource {
    /// The bytes of the stream.
    pub closed spec fn content(&self) -> Seq<u8> {
        self.data@
    }

    /// The current position.
    pub closed spec fn cursor(&self) -> nat {
        self.pos as nat
    }

    /// The position lies within the stream.
    pub open spec fn wf(&self) -> bool {
        self.cursor() <= self.content().len()
    }

    /// A stream of `data`, positioned at its start.
    pub fn new(data: Vec<u8>) -> (r: ByteSource)
        ensures
            r.wf(),
            r.content() == data@,
            r.cursor() == 0,
    {
        ByteSource { data, pos: 0 }
    }

    /// The current position.
    pub fn position(&self) -> (r: u64)
        ensures
            r == self.cursor(),
    {
        self.pos as u64
    }

    /// The length of the stream.
    pub fn len(&self) -> (r: u64)
        ensures
            r == self.content().len(),
    {
        self.data.len() as u64
    }

    /// Moves the position to the seek's target where it lies in `0..=len`
    /// and returns it; otherwise returns none and leaves the position.
    pub fn seek(&mut self, f: SeekFrom) -> (r: Option<u64>)
        requires
            old(self).wf(),
        ensures
            final(self).wf(),
            final(self).content() == old(self).content(),
            r == seek_outcome(old(self).content().len(), old(self).cursor(), f),
            final(self).cursor() == pos_after_seek(old(self).content().len(), old(self).cursor(), f),
    {
        let len: i128 = self.data.len() as i128;
        let target: i128 = match f {
            SeekFrom::Start(o) => o as i128,
            SeekFrom::End(o) => len + o as i128,
            SeekFrom::Current(o) => self.pos as i128 + o as i128,
        };
        if 0 <= target && target <= len {
            self.pos = target as usize;
            Some(target as u64)
        } else {
            None
        }
    }

    /// Reads up to `amount` bytes from the position and moves the position
    /// past what was produced.
    pub fn read(&mut self, amount: u64) -> (r: Vec<u8>)
        requires
            old(self).wf(),
        ensures
            final(self).wf(),
            final(self).content() == old(self).content(),
            r@ == read_bytes(old(self).content(), old(self).cursor(), amount as nat),
            final(self).cursor() == old(self).cursor() + read_count(
                old(self).content().len(),
                old(self).cursor(),
                amount as nat,
            ),
    {
        let avail: usize = self.data.len() - self.pos;
        let n: usize = if amount <= avail as u64 {
            amount as usize
        } else {
            avail
        };
        let start: usize = self.pos;
        let mut r: Vec<u8> = Vec::new();
        let mut i: usize = 0;
        while i < n
            invariant
                i <= n,
                start + n <= self.data@.len() <= usize::MAX,
                r@ == self.data@.subrange(start as int, start + i),
            decreases n - i,
        {
            r.push(self.data[start + i]);
            i = i + 1;
            assert(r@ =~= self.data@.subrange(start as int, start + i));
        }
        self.pos = start + n;
        r
    }
}

} // verus!
