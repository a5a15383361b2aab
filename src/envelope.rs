use vstd::prelude::*;
use vstd::bytes::spec_u32_from_le_bytes;
use crate::error::{Error, FramingError};
use crate::header::{
    lemma_request_header_bytes_unique, lemma_response_header_bytes_unique, MAX_BODY_LEN,
    parse_request_header, parse_response_header, request_header_bytes, response_header_bytes,
    RequestHeader, ResponseHeader, REQUEST_HEADER_SIZE, RESPONSE_HEADER_SIZE,
};
use crate::request_auth::RequestAuth;
use crate::stream::{ByteReader, ByteWriter};

verus! {

/// A request envelope: header, opaque body, opaque authentication segment.
#[derive(Debug, Clone)]
pub struct Request {
    pub header: RequestHeader,
    pub body: Vec<u8>,
    pub auth: RequestAuth,
}

/// A response envelope: header and opaque body.
#[derive(Debug, Clone)]
pub struct Response {
    pub header: ResponseHeader,
    pub body: Vec<u8>,
}

/// Bytes a whole request frame takes on the wire, by its header.
pub open spec fn request_frame_len(h: RequestHeader) -> int {
    REQUEST_HEADER_SIZE + h.body_len + h.auth_len
}

/// Bytes a whole response frame takes on the wire, by its header.
pub open spec fn response_frame_len(h: ResponseHeader) -> int {
    RESPONSE_HEADER_SIZE + h.body_len
}

/// The wire form of a request: header, body, auth, with no padding.
pub open spec fn request_wire(h: RequestHeader, body: Seq<u8>, auth: Seq<u8>) -> Seq<u8> {
    request_header_bytes(h) + body + auth
}

/// The wire form of a response: header, then body, with no padding.
pub open spec fn response_wire(h: ResponseHeader, body: Seq<u8>) -> Seq<u8> {
    response_header_bytes(h) + body
}

/// What reading a request from a stream holding `s` yields: the header,
/// then exactly the declared body and auth bytes, or the first error met.
pub open spec fn read_request_outcome(s: Seq<u8>) -> Result<(RequestHeader, Seq<u8>, Seq<u8>), Error> {
    if s.len() < REQUEST_HEADER_SIZE {
        Err(Error::Io)
    } else {
        match parse_request_header(s.take(REQUEST_HEADER_SIZE as int)) {
            Err(e) => Err(e),
            Ok(h) => if s.len() < request_frame_len(h) {
                Err(Error::Io)
            } else {
                Ok(
                    (
                        h,
                        s.subrange(REQUEST_HEADER_SIZE as int, REQUEST_HEADER_SIZE + h.body_len),
                        s.subrange(REQUEST_HEADER_SIZE + h.body_len, request_frame_len(h)),
                    ),
                )
            },
        }
    }
}

/// What is left in the stream after reading a request from `s`: a segment
/// that is short is not consumed, every complete one before it is.
pub open spec fn read_request_rest(s: Seq<u8>) -> Seq<u8> {
    if s.len() < REQUEST_HEADER_SIZE {
        s
    } else {
        match parse_request_header(s.take(REQUEST_HEADER_SIZE as int)) {
            Err(e) => s.skip(REQUEST_HEADER_SIZE as int),
            Ok(h) => if s.len() < REQUEST_HEADER_SIZE + h.body_len {
                s.skip(REQUEST_HEADER_SIZE as int)
            } else if s.len() < request_frame_len(h) {
                s.skip(REQUEST_HEADER_SIZE + h.body_len)
            } else {
                s.skip(request_frame_len(h))
            },
        }
    }
}

/// What reading a response from a stream holding `s` yields.
pub open spec fn read_response_outcome(s: Seq<u8>) -> Result<(ResponseHeader, Seq<u8>), Error> {
    if s.len() < RESPONSE_HEADER_SIZE {
        Err(Error::Io)
    } else {
        match parse_response_header(s.take(RESPONSE_HEADER_SIZE as int)) {
            Err(e) => Err(e),
            Ok(h) => if s.len() < response_frame_len(h) {
                Err(Error::Io)
            } else {
                Ok((h, s.subrange(RESPONSE_HEADER_SIZE as int, response_frame_len(h))))
            },
        }
    }
}

/// What is left in the stream after reading a response from `s`.
pub open spec fn read_response_rest(s: Seq<u8>) -> Seq<u8> {
    if s.len() < RESPONSE_HEADER_SIZE {
        s
    } else {
        match parse_response_header(s.take(RESPONSE_HEADER_SIZE as int)) {
            Err(e) => s.skip(RESPONSE_HEADER_SIZE as int),
            Ok(h) => if s.len() < response_frame_len(h) {
                s.skip(RESPONSE_HEADER_SIZE as int)
            } else {
                s.skip(response_frame_len(h))
            },
        }
    }
}

impl Request {
    /// Reads a request: the fixed-size header, then exactly `body_len` body
    /// bytes, then exactly `auth_len` auth bytes. A stream that ends early
    /// fails with `Error::Io`; a rejected header fails before any body byte
    /// is read.
    pub fn read_from_stream(stream: &mut ByteReader) -> (r: Result<Request, Error>)
        ensures
            match read_request_outcome(old(stream)@) {
                Ok((h, body, auth)) => r is Ok && r->Ok_0.header == h && r->Ok_0.body@ == body
                    && r->Ok_0.auth@ == auth,
                Err(e) => r == Err::<Request, Error>(e),
            },
            final(stream)@ == read_request_rest(old(stream)@),
    {
        let ghost s = stream@;
        let header = RequestHeader::read_from_stream(stream)?;
        let body = stream.read_exact(header.body_len as usize)?;
        let auth = RequestAuth::read_from_stream(stream, header.auth_len as usize)?;
        proof {
            assert(body@ =~= s.subrange(REQUEST_HEADER_SIZE as int, REQUEST_HEADER_SIZE + header.body_len));
            assert(auth@ =~= s.subrange(REQUEST_HEADER_SIZE + header.body_len, request_frame_len(header)));
        }
        Ok(Request { header, body, auth })
    }

    /// Writes header, body and auth, in that order. A header whose declared
    /// lengths disagree with the segments fails with a framing error and
    /// writes nothing.
    pub fn write_to_stream(&self, stream: &mut ByteWriter) -> (r: Result<(), Error>)
        ensures
            (self.header.body_len == self.body@.len() && self.header.auth_len == self.auth@.len())
                ==> r is Ok && final(stream)@ == old(stream)@ + request_wire(
                self.header,
                self.body@,
                self.auth@,
            ),
            !(self.header.body_len == self.body@.len() && self.header.auth_len == self.auth@.len())
                ==> r == Err::<(), Error>(Error::Framing(FramingError::LengthMismatch))
                && final(stream)@ == old(stream)@,
    {
        if self.header.body_len as usize != self.body.len() || self.header.auth_len as usize
            != self.auth.len() {
            return Err(Error::Framing(FramingError::LengthMismatch));
        }
        self.header.write_to_stream(stream);
        stream.write_all(self.body.as_slice());
        self.auth.write_to_stream(stream);
        Ok(())
    }
}

impl Response {
    /// Reads a response: the fixed-size header, then exactly `body_len` body
    /// bytes. A stream that ends early fails with `Error::Io`; a rejected
    /// header fails before any body byte is read.
    pub fn read_from_stream(stream: &mut ByteReader) -> (r: Result<Response, Error>)
        ensures
            match read_response_outcome(old(stream)@) {
                Ok((h, body)) => r is Ok && r->Ok_0.header == h && r->Ok_0.body@ == body,
                Err(e) => r == Err::<Response, Error>(e),
            },
            final(stream)@ == read_response_rest(old(stream)@),
    {
        let ghost s = stream@;
        let header = ResponseHeader::read_from_stream(stream)?;
        let body = stream.read_exact(header.body_len as usize)?;
        proof {
            assert(body@ =~= s.subrange(RESPONSE_HEADER_SIZE as int, response_frame_len(header)));
        }
        Ok(Response { header, body })
    }

    /// Writes header then body. A header whose declared body length disagrees
    /// with the body fails with a framing error and writes nothing.
    pub fn write_to_stream(&self, stream: &mut ByteWriter) -> (r: Result<(), Error>)
        ensures
            self.header.body_len == self.body@.len() ==> r is Ok && final(stream)@ == old(stream)@
                + response_wire(self.header, self.body@),
            self.header.body_len != self.body@.len() ==> r == Err::<(), Error>(
                Error::Framing(FramingError::LengthMismatch),
            ) && final(stream)@ == old(stream)@,
    {
        if self.header.body_len as usize != self.body.len() {
            return Err(Error::Framing(FramingError::LengthMismatch));
        }
        self.header.write_to_stream(stream);
        stream.write_all(self.body.as_slice());
        Ok(())
    }
}

/// Writing back a request that was read from a stream reproduces exactly the
/// bytes that the read consumed: the declared lengths match the segments, and
/// the stream was the request's wire form followed by what the read left.
pub proof fn lemma_request_rewrite(s: Seq<u8>)
    requires
        read_request_outcome(s) is Ok,
    ensures
        ({
            let (h, body, auth) = read_request_outcome(s)->Ok_0;
            &&& h.body_len == body.len()
            &&& h.auth_len == auth.len()
            &&& request_wire(h, body, auth) == s.take(request_frame_len(h))
            &&& s == request_wire(h, body, auth) + read_request_rest(s)
        }),
{
    let (h, body, auth) = read_request_outcome(s)->Ok_0;
    lemma_request_header_bytes_unique(s.take(REQUEST_HEADER_SIZE as int));
    assert(request_wire(h, body, auth) =~= s.take(request_frame_len(h)));
    assert(s =~= request_wire(h, body, auth) + read_request_rest(s));
}

/// Writing back a response that was read from a stream reproduces exactly the
/// bytes that the read consumed.
pub proof fn lemma_response_rewrite(s: Seq<u8>)
    requires
        read_response_outcome(s) is Ok,
    ensures
        ({
            let (h, body) = read_response_outcome(s)->Ok_0;
            &&& h.body_len == body.len()
            &&& response_wire(h, body) == s.take(response_frame_len(h))
            &&& s == response_wire(h, body) + read_response_rest(s)
        }),
{
    let (h, body) = read_response_outcome(s)->Ok_0;
    lemma_response_header_bytes_unique(s.take(RESPONSE_HEADER_SIZE as int));
    assert(response_wire(h, body) =~= s.take(response_frame_len(h)));
    assert(s =~= response_wire(h, body) + read_response_rest(s));
}

/// A request header that declares more body bytes than the stream still
/// holds after it gives `Error::Io`, never a shorter request.
pub proof fn lemma_short_body_is_io_error(s: Seq<u8>)
    requires
        s.len() >= REQUEST_HEADER_SIZE,
        parse_request_header(s.take(REQUEST_HEADER_SIZE as int)) is Ok,
        s.len() - REQUEST_HEADER_SIZE < parse_request_header(
            s.take(REQUEST_HEADER_SIZE as int),
        )->Ok_0.body_len,
    ensures
        read_request_outcome(s) == Err::<(RequestHeader, Seq<u8>, Seq<u8>), Error>(Error::Io),
{
}

/// A request header that declares a body over the bound gives a framing
/// error, and the read stops right after the header: no body byte is read.
pub proof fn lemma_oversized_body_is_framing_error(s: Seq<u8>)
    requires
        s.len() >= REQUEST_HEADER_SIZE,
        spec_u32_from_le_bytes(s.subrange(20, 24)) > MAX_BODY_LEN,
    ensures
        read_request_outcome(s) is Err,
        read_request_outcome(s)->Err_0 is Framing,
        read_request_rest(s) == s.skip(REQUEST_HEADER_SIZE as int),
{
    assert(s.take(REQUEST_HEADER_SIZE as int).subrange(20, 24) =~= s.subrange(20, 24));
}

} // verus!
