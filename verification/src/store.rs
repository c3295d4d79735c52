use vstd::prelude::*;

use crate::errors::Error;

verus! {

/// The narrow capability a stream engine needs from a seekable,
/// byte-addressable target: read one byte at an offset, write one byte at an
/// offset.
///
/// `contents` is the mathematical view of the target's bytes. An offset at
/// or beyond the end of the target is rejected with `OutOfRange`; any other
/// failure is an `IO` error. Reads never change the contents, a failed write
/// leaves them as they were, and a successful write updates exactly one
/// byte. An implementation over a real stream (an open file, say) realises
/// one call as seek + read or seek + write; the engine's own contracts are
/// proved from what this trait promises, so the same engine logic works
/// uniformly over files, in-memory targets and test doubles.
pub trait ByteStore: Sized {
    /// The bytes the target holds.
    spec fn contents(&self) -> Seq<u8>;

    /// True for targets whose reads and writes cannot fail with `IO`: every
    /// in-range operation on such a target is owed success. It holds for the
    /// in-memory store; a store over real I/O does not have it, and callers
    /// of such a store can promise nothing beyond what every outcome gives.
    spec fn infallible(&self) -> bool;

    /// Read the byte at `offset`.
    fn read_at(&mut self, offset: usize) -> (r: Result<u8, Error>)
        ensures
            final(self).contents() == old(self).contents(),
            final(self).infallible() == old(self).infallible(),
            offset >= old(self).contents().len() ==> r == Err::<u8, Error>(Error::OutOfRange),
            r == Err::<u8, Error>(Error::OutOfRange) ==> offset >= old(self).contents().len(),
            r is Ok ==> offset < old(self).contents().len() && r == Ok::<u8, Error>(
                old(self).contents()[offset as int],
            ),
            old(self).infallible() && offset < old(self).contents().len() ==> r is Ok,
    ;

    /// Write `value` over the byte at `offset`.
    fn write_at(&mut self, offset: usize, value: u8) -> (r: Result<(), Error>)
        ensures
            final(self).infallible() == old(self).infallible(),
            r is Ok ==> offset < old(self).contents().len() && final(self).contents() == old(
                self,
            ).contents().update(offset as int, value),
            r is Err ==> final(self).contents() == old(self).contents(),
            offset >= old(self).contents().len() ==> r == Err::<(), Error>(Error::OutOfRange),
            r == Err::<(), Error>(Error::OutOfRange) ==> offset >= old(
                self,
            ).contents().len(),
            old(self).infallible() && offset < old(self).contents().len() ==> r is Ok,
    ;
}

/// An in-memory byte store: the simplest target a stream engine can drive,
/// and the test double for targets that live behind real I/O. Every
/// operation is total and verified; only offsets at or beyond the end fail.
pub struct VecStore {
    bytes: Vec<u8>,
}

impl VecStore {
    /// Wrap owned bytes as a byte store.
    pub fn new(bytes: Vec<u8>) -> (r: Self)
        ensures
            r.contents() == bytes@,
            r.infallible(),
    {
        Self { bytes }
    }

    /// Consume the store and hand the bytes back.
    pub fn into_bytes(self) -> (r: Vec<u8>)
        ensures
            r@ == self.contents(),
    {
        self.bytes
    }

    /// Read access to the bytes the store holds.
    pub fn bytes(&self) -> (r: &Vec<u8>)
        ensures
            r@ == self.contents(),
    {
        &self.bytes
    }
}

impl ByteStore for VecStore {
    closed spec fn contents(&self) -> Seq<u8> {
        self.bytes@
    }

    open spec fn infallible(&self) -> bool {
        true
    }

    fn read_at(&mut self, offset: usize) -> (r: Result<u8, Error>) {
        if offset < self.bytes.len() {
            Ok(self.bytes[offset])
        } else {
            Err(Error::OutOfRange)
        }
    }

    fn write_at(&mut self, offset: usize, value: u8) -> (r: Result<(), Error>) {
        if offset < self.bytes.len() {
            self.bytes.set(offset, value);
            Ok(())
        } else {
            Err(Error::OutOfRange)
        }
    }
}

} // verus!
