use vstd::prelude::*;
use vstd::bytes::*;
use vstd::slice::slice_subrange;
use crate::error::{Error, FramingError};
use crate::stream::{ByteReader, ByteWriter};

verus! {

broadcast use vstd::seq_lib::group_seq_properties;

/// Frame-sync marker that precedes every header, little-endian on the wire.
pub const MAGIC_NUMBER: u32 = 0x5EC0_A710;

/// The one protocol version this codec understands.
pub const WIRE_VERSION_MAJOR: u8 = 1;

pub const WIRE_VERSION_MINOR: u8 = 0;

/// Largest body a header may declare.
pub const MAX_BODY_LEN: u32 = 0x0010_0000;

/// Largest authentication segment a request header may declare.
pub const MAX_AUTH_LEN: u16 = 0x1000;

/// Request header layout, all integers little-endian:
/// marker (4), version major (1), version minor (1), provider (1),
/// session (8), content type (1), accept type (1), auth type (1),
/// opcode (2), body length (4), auth length (2).
pub const REQUEST_HEADER_SIZE: usize = 26;

/// Response header layout, all integers little-endian:
/// marker (4), version major (1), version minor (1), provider (1),
/// session (8), content type (1), accept type (1), opcode (2),
/// body length (4).
pub const RESPONSE_HEADER_SIZE: usize = 23;

/// Backend that is to service a request.
#[derive(Debug, Clone, Copy, PartialEq, Eq, Structural)]
pub enum ProviderID {
    CoreProvider,
    MbedProvider,
    Pkcs11Provider,
    TpmProvider,
}

/// Wire encoding of a message body.
#[derive(Debug, Clone, Copy, PartialEq, Eq, Structural)]
pub enum BodyType {
    LengthPrefixed,
}

/// How an external authenticator is to read the auth segment.
#[derive(Debug, Clone, Copy, PartialEq, Eq, Structural)]
pub enum AuthType {
    NoAuth,
    Simple,
}

pub open spec fn provider_code(p: ProviderID) -> u8 {
    match p {
        ProviderID::CoreProvider => 0,
        ProviderID::MbedProvider => 1,
        ProviderID::Pkcs11Provider => 2,
        ProviderID::TpmProvider => 3,
    }
}

pub open spec fn provider_of_code(c: u8) -> Option<ProviderID> {
    if c == 0 {
        Some(ProviderID::CoreProvider)
    } else if c == 1 {
        Some(ProviderID::MbedProvider)
    } else if c == 2 {
        Some(ProviderID::Pkcs11Provider)
    } else if c == 3 {
        Some(ProviderID::TpmProvider)
    } else {
        None
    }
}

pub open spec fn body_type_code(t: BodyType) -> u8 {
    match t {
        BodyType::LengthPrefixed => 0,
    }
}

pub open spec fn body_type_of_code(c: u8) -> Option<BodyType> {
    if c == 0 {
        Some(BodyType::LengthPrefixed)
    } else {
        None
    }
}

pub open spec fn auth_type_code(t: AuthType) -> u8 {
    match t {
        AuthType::NoAuth => 0,
        AuthType::Simple => 1,
    }
}

pub open spec fn auth_type_of_code(c: u8) -> Option<AuthType> {
    if c == 0 {
        Some(AuthType::NoAuth)
    } else if c == 1 {
        Some(AuthType::Simple)
    } else {
        None
    }
}

impl ProviderID {
    /// The provider's code on the wire.
    pub fn to_u8(self) -> (c: u8)
        ensures
            c == provider_code(self),
    {
        match self {
            ProviderID::CoreProvider => 0,
            ProviderID::MbedProvider => 1,
            ProviderID::Pkcs11Provider => 2,
            ProviderID::TpmProvider => 3,
        }
    }

    /// The provider a wire code stands for, if any.
    pub fn from_u8(c: u8) -> (p: Option<ProviderID>)
        ensures
            p == provider_of_code(c),
    {
        if c == 0 {
            Some(ProviderID::CoreProvider)
        } else if c == 1 {
            Some(ProviderID::MbedProvider)
        } else if c == 2 {
            Some(ProviderID::Pkcs11Provider)
        } else if c == 3 {
            Some(ProviderID::TpmProvider)
        } else {
            None
        }
    }
}

impl BodyType {
    /// The body type's code on the wire.
    pub fn to_u8(self) -> (c: u8)
        ensures
            c == body_type_code(self),
    {
        match self {
            BodyType::LengthPrefixed => 0,
        }
    }

    /// The body type a wire code stands for, if any.
    pub fn from_u8(c: u8) -> (t: Option<BodyType>)
        ensures
            t == body_type_of_code(c),
    {
        if c == 0 {
            Some(BodyType::LengthPrefixed)
        } else {
            None
        }
    }
}

impl AuthType {
    /// The auth type's code on the wire.
    pub fn to_u8(self) -> (c: u8)
        ensures
            c == auth_type_code(self),
    {
        match self {
            AuthType::NoAuth => 0,
            AuthType::Simple => 1,
        }
    }

    /// The auth type a wire code stands for, if any.
    pub fn from_u8(c: u8) -> (t: Option<AuthType>)
        ensures
            t == auth_type_of_code(c),
    {
        if c == 0 {
            Some(AuthType::NoAuth)
        } else if c == 1 {
            Some(AuthType::Simple)
        } else {
            None
        }
    }
}

/// Fixed-layout header in front of a request body and auth segment.
#[derive(Debug, Clone, Copy, PartialEq, Eq, Structural)]
pub struct RequestHeader {
    pub version_maj: u8,
    pub version_min: u8,
    pub provider: ProviderID,
    pub session: u64,
    pub content_type: BodyType,
    pub accept_type: BodyType,
    pub auth_type: AuthType,
    pub opcode: u16,
    pub body_len: u32,
    pub auth_len: u16,
}

/// Fixed-layout header in front of a response body.
#[derive(Debug, Clone, Copy, PartialEq, Eq, Structural)]
pub struct ResponseHeader {
    pub version_maj: u8,
    pub version_min: u8,
    pub provider: ProviderID,
    pub session: u64,
    pub content_type: BodyType,
    pub accept_type: BodyType,
    pub opcode: u16,
    pub body_len: u32,
}

pub open spec fn supported_version(maj: u8, min: u8) -> bool {
    maj == WIRE_VERSION_MAJOR && min == WIRE_VERSION_MINOR
}

/// A request header that the codec accepts: a known version and lengths
/// within their bounds.
pub open spec fn valid_request_header(h: RequestHeader) -> bool {
    &&& supported_version(h.version_maj, h.version_min)
    &&& h.body_len <= MAX_BODY_LEN
    &&& h.auth_len <= MAX_AUTH_LEN
}

/// A response header that the codec accepts.
pub open spec fn valid_response_header(h: ResponseHeader) -> bool {
    &&& supported_version(h.version_maj, h.version_min)
    &&& h.body_len <= MAX_BODY_LEN
}

/// The wire form of a request header.
pub open spec fn request_header_bytes(h: RequestHeader) -> Seq<u8> {
    spec_u32_to_le_bytes(MAGIC_NUMBER) + seq![h.version_maj, h.version_min, provider_code(h.provider)]
        + spec_u64_to_le_bytes(h.session) + seq![
        body_type_code(h.content_type),
        body_type_code(h.accept_type),
        auth_type_code(h.auth_type),
    ] + spec_u16_to_le_bytes(h.opcode) + spec_u32_to_le_bytes(h.body_len) + spec_u16_to_le_bytes(
        h.auth_len,
    )
}

/// The wire form of a response header.
pub open spec fn response_header_bytes(h: ResponseHeader) -> Seq<u8> {
    spec_u32_to_le_bytes(MAGIC_NUMBER) + seq![h.version_maj, h.version_min, provider_code(h.provider)]
        + spec_u64_to_le_bytes(h.session) + seq![
        body_type_code(h.content_type),
        body_type_code(h.accept_type),
    ] + spec_u16_to_le_bytes(h.opcode) + spec_u32_to_le_bytes(h.body_len)
}

/// What the codec makes of the bytes of a request header, checked in this
/// order: size, marker, version, known field values, length bounds.
pub open spec fn parse_request_header(b: Seq<u8>) -> Result<RequestHeader, Error> {
    if b.len() != REQUEST_HEADER_SIZE {
        Err(Error::Framing(FramingError::LengthMismatch))
    } else if spec_u32_from_le_bytes(b.subrange(0, 4)) != MAGIC_NUMBER {
        Err(Error::Framing(FramingError::BadMarker))
    } else if !supported_version(b[4], b[5]) {
        Err(Error::Framing(FramingError::UnsupportedVersion))
    } else if provider_of_code(b[6]) is None || body_type_of_code(b[15]) is None
        || body_type_of_code(b[16]) is None || auth_type_of_code(b[17]) is None {
        Err(Error::Framing(FramingError::UnknownValue))
    } else if spec_u32_from_le_bytes(b.subrange(20, 24)) > MAX_BODY_LEN
        || spec_u16_from_le_bytes(b.subrange(24, 26)) > MAX_AUTH_LEN {
        Err(Error::Framing(FramingError::LengthTooLarge))
    } else {
        Ok(
            RequestHeader {
                version_maj: b[4],
                version_min: b[5],
                provider: provider_of_code(b[6])->Some_0,
                session: spec_u64_from_le_bytes(b.subrange(7, 15)),
                content_type: body_type_of_code(b[15])->Some_0,
                accept_type: body_type_of_code(b[16])->Some_0,
                auth_type: auth_type_of_code(b[17])->Some_0,
                opcode: spec_u16_from_le_bytes(b.subrange(18, 20)),
                body_len: spec_u32_from_le_bytes(b.subrange(20, 24)),
                auth_len: spec_u16_from_le_bytes(b.subrange(24, 26)),
            },
        )
    }
}

/// What the codec makes of the bytes of a response header, checked in this
/// order: size, marker, version, known field values, length bound.
pub open spec fn parse_response_header(b: Seq<u8>) -> Result<ResponseHeader, Error> {
    if b.len() != RESPONSE_HEADER_SIZE {
        Err(Error::Framing(FramingError::LengthMismatch))
    } else if spec_u32_from_le_bytes(b.subrange(0, 4)) != MAGIC_NUMBER {
        Err(Error::Framing(FramingError::BadMarker))
    } else if !supported_version(b[4], b[5]) {
        Err(Error::Framing(FramingError::UnsupportedVersion))
    } else if provider_of_code(b[6]) is None || body_type_of_code(b[15]) is None
        || body_type_of_code(b[16]) is None {
        Err(Error::Framing(FramingError::UnknownValue))
    } else if spec_u32_from_le_bytes(b.subrange(19, 23)) > MAX_BODY_LEN {
        Err(Error::Framing(FramingError::LengthTooLarge))
    } else {
        Ok(
            ResponseHeader {
                version_maj: b[4],
                version_min: b[5],
                provider: provider_of_code(b[6])->Some_0,
                session: spec_u64_from_le_bytes(b.subrange(7, 15)),
                content_type: body_type_of_code(b[15])->Some_0,
                accept_type: body_type_of_code(b[16])->Some_0,
                opcode: spec_u16_from_le_bytes(b.subrange(17, 19)),
                body_len: spec_u32_from_le_bytes(b.subrange(19, 23)),
            },
        )
    }
}

/// Serialising a valid request header and reading the bytes back gives the
/// same header.
pub proof fn lemma_request_header_round_trip(h: RequestHeader)
    requires
        valid_request_header(h),
    ensures
        request_header_bytes(h).len() == REQUEST_HEADER_SIZE,
        parse_request_header(request_header_bytes(h)) == Ok::<RequestHeader, Error>(h),
{
    lemma_auto_spec_u16_to_from_le_bytes();
    lemma_auto_spec_u32_to_from_le_bytes();
    lemma_auto_spec_u64_to_from_le_bytes();
    let b = request_header_bytes(h);
    assert(b.subrange(0, 4) =~= spec_u32_to_le_bytes(MAGIC_NUMBER));
    assert(b.subrange(7, 15) =~= spec_u64_to_le_bytes(h.session));
    assert(b.subrange(18, 20) =~= spec_u16_to_le_bytes(h.opcode));
    assert(b.subrange(20, 24) =~= spec_u32_to_le_bytes(h.body_len));
    assert(b.subrange(24, 26) =~= spec_u16_to_le_bytes(h.auth_len));
}

/// Bytes that read as a request header are exactly that header's wire form.
pub proof fn lemma_request_header_bytes_unique(b: Seq<u8>)
    requires
        parse_request_header(b) is Ok,
    ensures
        request_header_bytes(parse_request_header(b)->Ok_0) == b,
        valid_request_header(parse_request_header(b)->Ok_0),
{
    lemma_auto_spec_u16_to_from_le_bytes();
    lemma_auto_spec_u32_to_from_le_bytes();
    lemma_auto_spec_u64_to_from_le_bytes();
    let h = parse_request_header(b)->Ok_0;
    assert(spec_u32_to_le_bytes(spec_u32_from_le_bytes(b.subrange(0, 4))) == b.subrange(0, 4));
    assert(spec_u64_to_le_bytes(spec_u64_from_le_bytes(b.subrange(7, 15))) == b.subrange(7, 15));
    assert(spec_u16_to_le_bytes(spec_u16_from_le_bytes(b.subrange(18, 20))) == b.subrange(18, 20));
    assert(spec_u32_to_le_bytes(spec_u32_from_le_bytes(b.subrange(20, 24))) == b.subrange(20, 24));
    assert(spec_u16_to_le_bytes(spec_u16_from_le_bytes(b.subrange(24, 26))) == b.subrange(24, 26));
    assert(request_header_bytes(h) =~= b);
}

/// Serialising a valid response header and reading the bytes back gives the
/// same header.
pub proof fn lemma_response_header_round_trip(h: ResponseHeader)
    requires
        valid_response_header(h),
    ensures
        response_header_bytes(h).len() == RESPONSE_HEADER_SIZE,
        parse_response_header(response_header_bytes(h)) == Ok::<ResponseHeader, Error>(h),
{
    lemma_auto_spec_u16_to_from_le_bytes();
    lemma_auto_spec_u32_to_from_le_bytes();
    lemma_auto_spec_u64_to_from_le_bytes();
    let b = response_header_bytes(h);
    assert(b.subrange(0, 4) =~= spec_u32_to_le_bytes(MAGIC_NUMBER));
    assert(b.subrange(7, 15) =~= spec_u64_to_le_bytes(h.session));
    assert(b.subrange(17, 19) =~= spec_u16_to_le_bytes(h.opcode));
    assert(b.subrange(19, 23) =~= spec_u32_to_le_bytes(h.body_len));
}

/// Bytes that read as a response header are exactly that header's wire form.
pub proof fn lemma_response_header_bytes_unique(b: Seq<u8>)
    requires
        parse_response_header(b) is Ok,
    ensures
        response_header_bytes(parse_response_header(b)->Ok_0) == b,
        valid_response_header(parse_response_header(b)->Ok_0),
{
    lemma_auto_spec_u16_to_from_le_bytes();
    lemma_auto_spec_u32_to_from_le_bytes();
    lemma_auto_spec_u64_to_from_le_bytes();
    let h = parse_response_header(b)->Ok_0;
    assert(spec_u32_to_le_bytes(spec_u32_from_le_bytes(b.subrange(0, 4))) == b.subrange(0, 4));
    assert(spec_u64_to_le_bytes(spec_u64_from_le_bytes(b.subrange(7, 15))) == b.subrange(7, 15));
    assert(spec_u16_to_le_bytes(spec_u16_from_le_bytes(b.subrange(17, 19))) == b.subrange(17, 19));
    assert(spec_u32_to_le_bytes(spec_u32_from_le_bytes(b.subrange(19, 23))) == b.subrange(19, 23));
    assert(response_header_bytes(h) =~= b);
}

impl RequestHeader {
    /// Writes the header's wire form to the stream.
    pub fn write_to_stream(&self, stream: &mut ByteWriter)
        ensures
            final(stream)@ == old(stream)@ + request_header_bytes(*self),
    {
        let magic = u32_to_le_bytes(MAGIC_NUMBER);
        stream.write_all(magic.as_slice());
        let ids = vec![self.version_maj, self.version_min, self.provider.to_u8()];
        stream.write_all(ids.as_slice());
        let session = u64_to_le_bytes(self.session);
        stream.write_all(session.as_slice());
        let types = vec![self.content_type.to_u8(), self.accept_type.to_u8(), self.auth_type.to_u8()];
        stream.write_all(types.as_slice());
        let opcode = u16_to_le_bytes(self.opcode);
        stream.write_all(opcode.as_slice());
        let body_len = u32_to_le_bytes(self.body_len);
        stream.write_all(body_len.as_slice());
        let auth_len = u16_to_le_bytes(self.auth_len);
        stream.write_all(auth_len.as_slice());
        assert(final(stream)@ =~= old(stream)@ + request_header_bytes(*self));
    }

    /// The header's wire form.
    pub fn serialize(&self) -> (b: Vec<u8>)
        ensures
            b@ == request_header_bytes(*self),
    {
        let mut w = ByteWriter::new();
        self.write_to_stream(&mut w);
        assert(w@ =~= request_header_bytes(*self));
        w.into_bytes()
    }

    /// Reads a header from its wire form, rejecting a wrong size, a bad
    /// marker, an unknown version, an undefined field value or a declared
    /// length over its bound.
    pub fn deserialize(b: &[u8]) -> (r: Result<RequestHeader, Error>)
        ensures
            r == parse_request_header(b@),
    {
        if b.len() != REQUEST_HEADER_SIZE {
            return Err(Error::Framing(FramingError::LengthMismatch));
        }
        let magic = u32_from_le_bytes(slice_subrange(b, 0, 4));
        if magic != MAGIC_NUMBER {
            return Err(Error::Framing(FramingError::BadMarker));
        }
        if b[4] != WIRE_VERSION_MAJOR || b[5] != WIRE_VERSION_MINOR {
            return Err(Error::Framing(FramingError::UnsupportedVersion));
        }
        let provider = ProviderID::from_u8(b[6]);
        let content_type = BodyType::from_u8(b[15]);
        let accept_type = BodyType::from_u8(b[16]);
        let auth_type = AuthType::from_u8(b[17]);
        match (provider, content_type, accept_type, auth_type) {
            (Some(provider), Some(content_type), Some(accept_type), Some(auth_type)) => {
                let body_len = u32_from_le_bytes(slice_subrange(b, 20, 24));
                let auth_len = u16_from_le_bytes(slice_subrange(b, 24, 26));
                if body_len > MAX_BODY_LEN || auth_len > MAX_AUTH_LEN {
                    return Err(Error::Framing(FramingError::LengthTooLarge));
                }
                Ok(
                    RequestHeader {
                        version_maj: b[4],
                        version_min: b[5],
                        provider,
                        session: u64_from_le_bytes(slice_subrange(b, 7, 15)),
                        content_type,
                        accept_type,
                        auth_type,
                        opcode: u16_from_le_bytes(slice_subrange(b, 18, 20)),
                        body_len,
                        auth_len,
                    },
                )
            },
            _ => Err(Error::Framing(FramingError::UnknownValue)),
        }
    }

    /// Reads a header's fixed-size wire form from the stream and decodes it.
    /// A stream with fewer bytes than a header fails with `Error::Io`; no byte
    /// past the header is ever consumed.
    pub fn read_from_stream(stream: &mut ByteReader) -> (r: Result<RequestHeader, Error>)
        ensures
            old(stream)@.len() < REQUEST_HEADER_SIZE ==> r == Err::<RequestHeader, Error>(Error::Io)
                && final(stream)@ == old(stream)@,
            old(stream)@.len() >= REQUEST_HEADER_SIZE ==> r == parse_request_header(
                old(stream)@.take(REQUEST_HEADER_SIZE as int),
            ) && final(stream)@ == old(stream)@.skip(REQUEST_HEADER_SIZE as int),
    {
        let raw = stream.read_exact(REQUEST_HEADER_SIZE)?;
        RequestHeader::deserialize(raw.as_slice())
    }
}

impl ResponseHeader {
    /// Writes the header's wire form to the stream.
    pub fn write_to_stream(&self, stream: &mut ByteWriter)
        ensures
            final(stream)@ == old(stream)@ + response_header_bytes(*self),
    {
        let magic = u32_to_le_bytes(MAGIC_NUMBER);
        stream.write_all(magic.as_slice());
        let ids = vec![self.version_maj, self.version_min, self.provider.to_u8()];
        stream.write_all(ids.as_slice());
        let session = u64_to_le_bytes(self.session);
        stream.write_all(session.as_slice());
        let types = vec![self.content_type.to_u8(), self.accept_type.to_u8()];
        stream.write_all(types.as_slice());
        let opcode = u16_to_le_bytes(self.opcode);
        stream.write_all(opcode.as_slice());
        let body_len = u32_to_le_bytes(self.body_len);
        stream.write_all(body_len.as_slice());
        assert(final(stream)@ =~= old(stream)@ + response_header_bytes(*self));
    }

    /// The header's wire form.
    pub fn serialize(&self) -> (b: Vec<u8>)
        ensures
            b@ == response_header_bytes(*self),
    {
        let mut w = ByteWriter::new();
        self.write_to_stream(&mut w);
        assert(w@ =~= response_header_bytes(*self));
        w.into_bytes()
    }

    /// Reads a header from its wire form, rejecting a wrong size, a bad
    /// marker, an unknown version, an undefined field value or a declared
    /// length over its bound.
    pub fn deserialize(b: &[u8]) -> (r: Result<ResponseHeader, Error>)
        ensures
            r == parse_response_header(b@),
    {
        if b.len() != RESPONSE_HEADER_SIZE {
            return Err(Error::Framing(FramingError::LengthMismatch));
        }
        let magic = u32_from_le_bytes(slice_subrange(b, 0, 4));
        if magic != MAGIC_NUMBER {
            return Err(Error::Framing(FramingError::BadMarker));
        }
        if b[4] != WIRE_VERSION_MAJOR || b[5] != WIRE_VERSION_MINOR {
            return Err(Error::Framing(FramingError::UnsupportedVersion));
        }
        let provider = ProviderID::from_u8(b[6]);
        let content_type = BodyType::from_u8(b[15]);
        let accept_type = BodyType::from_u8(b[16]);
        match (provider, content_type, accept_type) {
            (Some(provider), Some(content_type), Some(accept_type)) => {
                let body_len = u32_from_le_bytes(slice_subrange(b, 19, 23));
                if body_len > MAX_BODY_LEN {
                    return Err(Error::Framing(FramingError::LengthTooLarge));
                }
                Ok(
                    ResponseHeader {
                        version_maj: b[4],
                        version_min: b[5],
                        provider,
                        session: u64_from_le_bytes(slice_subrange(b, 7, 15)),
                        content_type,
                        accept_type,
                        opcode: u16_from_le_bytes(slice_subrange(b, 17, 19)),
                        body_len,
                    },
                )
            },
            _ => Err(Error::Framing(FramingError::UnknownValue)),
        }
    }

    /// Reads a header's fixed-size wire form from the stream and decodes it.
    /// A stream with fewer bytes than a header fails with `Error::Io`; no byte
    /// past the header is ever consumed.
    pub fn read_from_stream(stream: &mut ByteReader) -> (r: Result<ResponseHeader, Error>)
        ensures
            old(stream)@.len() < RESPONSE_HEADER_SIZE ==> r == Err::<ResponseHeader, Error>(
                Error::Io,
            ) && final(stream)@ == old(stream)@,
            old(stream)@.len() >= RESPONSE_HEADER_SIZE ==> r == parse_response_header(
                old(stream)@.take(RESPONSE_HEADER_SIZE as int),
            ) && final(stream)@ == old(stream)@.skip(RESPONSE_HEADER_SIZE as int),
    {
        let raw = stream.read_exact(RESPONSE_HEADER_SIZE)?;
        ResponseHeader::deserialize(raw.as_slice())
    }
}

} // verus!
