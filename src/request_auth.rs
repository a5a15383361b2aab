use vstd::prelude::*;
use crate::error::Error;
use crate::stream::{ByteReader, ByteWriter};

verus! {

/// The authentication segment of a request: an opaque byte sequence that is
/// carried, never interpreted, and never changed once built. Its view is
/// those bytes.
#[derive(Debug, Clone)]
pub struct RequestAuth {
    bytes: Vec<u8>,
}

impl View for RequestAuth {
    type V = Seq<u8>;

    closed spec fn view(&self) -> Seq<u8> {
        self.bytes@
    }
}

impl RequestAuth {
    /// An empty authentication segment, for requests that carry none.
    pub fn new() -> (a: RequestAuth)
        ensures
            a@ == Seq::<u8>::empty(),
    {
        RequestAuth { bytes: Vec::new() }
    }

    /// Reads an authentication segment of exactly `len` bytes from the
    /// stream; fails with `Error::Io`, consuming nothing, if fewer are left.
    pub fn read_from_stream(stream: &mut ByteReader, len: usize) -> (r: Result<RequestAuth, Error>)
        ensures
            len <= old(stream)@.len() ==> r is Ok && r->Ok_0@ == old(stream)@.take(len as int)
                && final(stream)@ == old(stream)@.skip(len as int),
            len > old(stream)@.len() ==> r == Err::<RequestAuth, Error>(Error::Io)
                && final(stream)@ == old(stream)@,
    {
        match stream.read_exact(len) {
            Ok(bytes) => Ok(RequestAuth { bytes }),
            Err(e) => Err(e),
        }
    }

    /// Writes the segment's bytes to the stream, with no length prefix.
    pub fn write_to_stream(&self, stream: &mut ByteWriter)
        ensures
            final(stream)@ == old(stream)@ + self@,
    {
        stream.write_all(self.bytes.as_slice());
    }

    /// Wraps the given bytes.
    pub fn from_bytes(bytes: Vec<u8>) -> (a: RequestAuth)
        ensures
            a@ == bytes@,
    {
        RequestAuth { bytes }
    }

    /// The segment's bytes.
    pub fn bytes(&self) -> (b: &[u8])
        ensures
            b@ == self@,
    {
        self.bytes.as_slice()
    }

    /// The segment's length in bytes.
    pub fn len(&self) -> (n: usize)
        ensures
            n == self@.len(),
    {
        self.bytes.len()
    }

    /// Whether the segment holds no bytes.
    pub fn is_empty(&self) -> (e: bool)
        ensures
            e == (self@.len() == 0),
    {
        self.bytes.len() == 0
    }
}

} // verus!
