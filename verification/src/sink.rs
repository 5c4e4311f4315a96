//! Byte sinks: the destinations that encoded payloads are appended to.

use core::convert::Infallible;
use vstd::prelude::*;

verus! {

/// The reason a [`BoundedSink`] refused a write.
#[derive(Debug, Clone, Copy, PartialEq, Eq, Structural)]
pub struct SinkFull {
    /// Number of bytes the refused write asked for.
    pub needed: usize,
    /// Number of bytes the sink still had room for.
    pub available: usize,
}

/// A destination for payload bytes.
///
/// A sink is modelled by the sequence of bytes written to it so far. A write
/// is all-or-nothing: it either appends the whole buffer or is refused and
/// leaves the sink as it was. Whether a write is refused, and with which
/// error, is a function of the bytes written so far and the bytes offered,
/// given by [`ByteSink::refusal`].
pub trait ByteSink {
    /// What the sink reports when it refuses a write.
    type Error;

    /// The bytes written to the sink so far.
    spec fn written(&self) -> Seq<u8>;

    /// `Some(e)` if a sink that holds `written` refuses `buf` with `e`,
    /// `None` if it accepts `buf`.
    spec fn refusal(written: Seq<u8>, buf: Seq<u8>) -> Option<Self::Error>;

    /// Appends all of `buf`, or refuses it and changes nothing.
    fn write_all(&mut self, buf: &[u8]) -> (res: Result<(), Self::Error>)
        ensures
            match Self::refusal(old(self).written(), buf@) {
                None => res is Ok && final(self).written() == old(self).written() + buf@,
                Some(e) => res == Err::<(), Self::Error>(e) && final(self).written() == old(
                    self,
                ).written(),
            },
    ;
}

/// A growable byte vector accepts every write.
impl ByteSink for Vec<u8> {
    type Error = Infallible;

    open spec fn written(&self) -> Seq<u8> {
        self@
    }

    open spec fn refusal(written: Seq<u8>, buf: Seq<u8>) -> Option<Infallible> {
        None
    }

    fn write_all(&mut self, buf: &[u8]) -> (res: Result<(), Infallible>) {
        self.extend_from_slice(buf);
        assert(self@ =~= old(self)@ + buf@);
        Ok(())
    }
}

/// A sink that holds at most `LIMIT` bytes.
///
/// A write that would take the sink past its limit is refused as a whole.
pub struct BoundedSink<const LIMIT: usize> {
    bytes: Vec<u8>,
}

/// How many more bytes fit under `limit` once `held` bytes are there.
pub open spec fn room(limit: usize, held: nat) -> usize {
    if held <= limit {
        (limit - held) as usize
    } else {
        0
    }
}

impl<const LIMIT: usize> BoundedSink<LIMIT> {
    /// The bytes held so far.
    pub closed spec fn contents(&self) -> Seq<u8> {
        self.bytes@
    }

    /// An empty sink.
    pub fn new() -> (sink: Self)
        ensures
            sink.contents() == Seq::<u8>::empty(),
    {
        BoundedSink { bytes: Vec::new() }
    }

    /// How many more bytes the sink will accept.
    pub fn remaining(&self) -> (n: usize)
        ensures
            n == room(LIMIT, self.contents().len()),
    {
        let held: usize = self.bytes.len();
        if held <= LIMIT {
            LIMIT - held
        } else {
            0
        }
    }

    /// The bytes held so far.
    pub fn as_slice(&self) -> (bytes: &[u8])
        ensures
            bytes@ == self.contents(),
    {
        self.bytes.as_slice()
    }

    /// Hands over the bytes held so far.
    pub fn into_bytes(self) -> (bytes: Vec<u8>)
        ensures
            bytes@ == self.contents(),
    {
        self.bytes
    }
}

impl<const LIMIT: usize> ByteSink for BoundedSink<LIMIT> {
    type Error = SinkFull;

    open spec fn written(&self) -> Seq<u8> {
        self.contents()
    }

    open spec fn refusal(written: Seq<u8>, buf: Seq<u8>) -> Option<SinkFull> {
        if written.len() + buf.len() <= LIMIT {
            None
        } else {
            Some(SinkFull { needed: buf.len() as usize, available: room(LIMIT, written.len()) })
        }
    }

    fn write_all(&mut self, buf: &[u8]) -> (res: Result<(), SinkFull>) {
        let available: usize = self.remaining();
        if self.bytes.len() <= LIMIT && buf.len() <= available {
            self.bytes.extend_from_slice(buf);
            assert(self.bytes@ =~= old(self).bytes@ + buf@);
            Ok(())
        } else {
            Err(SinkFull { needed: buf.len(), available })
        }
    }
}

} // verus!
