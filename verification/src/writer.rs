//! Writing a reply to a stream whose writes may take only part of what
//! they are given: the bytes still to send, and the count sent so far.

use vstd::prelude::*;
use vstd::slice::{slice_subrange, slice_to_vec};

verus! {

/// A reply being written out piece by piece.
pub struct WriteProgress {
    data: Vec<u8>,
    written: usize,
}

impl WriteProgress {
    /// The whole reply.
    pub closed spec fn data(&self) -> Seq<u8> {
        self.data@
    }

    /// How many bytes the stream has taken so far.
    pub closed spec fn written(&self) -> nat {
        self.written as nat
    }

    /// Starts writing `data`, with nothing sent yet.
    pub fn new(data: Vec<u8>) -> (p: WriteProgress)
        ensures
            p.data() == data@,
            p.written() == 0,
    {
        WriteProgress { data, written: 0 }
    }

    /// Whether every byte has been taken by the stream.
    pub fn is_complete(&self) -> (b: bool)
        ensures
            b == (self.written() >= self.data().len()),
    {
        self.written >= self.data.len()
    }

    /// The bytes that remain to be sent.
    pub fn pending(&self) -> (rest: Vec<u8>)
        requires
            self.written() < self.data().len(),
        ensures
            rest@ == self.data().subrange(self.written() as int, self.data().len() as int),
    {
        slice_to_vec(slice_subrange(self.data.as_slice(), self.written, self.data.len()))
    }

    /// Counts `n` more bytes as taken by the stream.
    pub fn record(&mut self, n: usize)
        requires
            old(self).written() + n <= usize::MAX,
        ensures
            final(self).data() == old(self).data(),
            final(self).written() == old(self).written() + n,
    {
        self.written = self.written + n;
    }

    /// How many bytes the stream has taken so far.
    pub fn written_count(&self) -> (n: usize)
        ensures
            n == self.written(),
    {
        self.written
    }
}

/// When each write takes a prefix of what remains, the bytes taken so far
/// are exactly the start of the reply, so a complete write sent all of it,
/// in order.
pub proof fn law_taken_prefixes_make_the_reply(data: Seq<u8>, written: nat, n: nat)
    requires
        written + n <= data.len(),
    ensures
        data.subrange(0, written as int) + data.subrange(written as int, data.len() as int).subrange(
            0,
            n as int,
        ) == data.subrange(0, (written + n) as int),
{
    assert(data.subrange(0, written as int) + data.subrange(written as int, data.len() as int).subrange(0, n as int)
        =~= data.subrange(0, (written + n) as int));
}

} // verus!
