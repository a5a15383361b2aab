use parsec_interface::error::{Error, FramingError};
use parsec_interface::header::{
    AuthType, BodyType, ProviderID, RequestHeader, ResponseHeader, MAX_AUTH_LEN, MAX_BODY_LEN,
    REQUEST_HEADER_SIZE, RESPONSE_HEADER_SIZE,
};

fn sample_request_header() -> RequestHeader {
    RequestHeader {
        version_maj: 1,
        version_min: 0,
        provider: ProviderID::MbedProvider,
        session: 0x0102_0304_0506_0708,
        content_type: BodyType::LengthPrefixed,
        accept_type: BodyType::LengthPrefixed,
        auth_type: AuthType::Simple,
        opcode: 2,
        body_len: 0x0000_0110,
        auth_len: 3,
    }
}

fn sample_response_header() -> ResponseHeader {
    ResponseHeader {
        version_maj: 1,
        version_min: 0,
        provider: ProviderID::CoreProvider,
        session: 7,
        content_type: BodyType::LengthPrefixed,
        accept_type: BodyType::LengthPrefixed,
        opcode: 1,
        body_len: 2,
    }
}

#[test]
fn request_header_exact_bytes() {
    let b = sample_request_header().serialize();
    assert_eq!(b.len(), REQUEST_HEADER_SIZE);
    assert_eq!(
        b,
        vec![
            0x10, 0xA7, 0xC0, 0x5E, 1, 0, 1, 8, 7, 6, 5, 4, 3, 2, 1, 0, 0, 1, 2, 0, 0x10, 0x01, 0,
            0, 3, 0
        ]
    );
}

#[test]
fn request_header_round_trip() {
    let h = sample_request_header();
    let b = h.serialize();
    let back = RequestHeader::deserialize(&b).unwrap();
    assert_eq!(back, h);
    assert_eq!(back.serialize(), b);
}

#[test]
fn response_header_round_trip() {
    let h = sample_response_header();
    let b = h.serialize();
    assert_eq!(b.len(), RESPONSE_HEADER_SIZE);
    let back = ResponseHeader::deserialize(&b).unwrap();
    assert_eq!(back, h);
    assert_eq!(back.serialize(), b);
}

#[test]
fn header_bad_marker() {
    let mut b = sample_request_header().serialize();
    b[0] = 0;
    assert_eq!(
        RequestHeader::deserialize(&b).unwrap_err(),
        Error::Framing(FramingError::BadMarker)
    );
}

#[test]
fn header_unsupported_version() {
    let mut b = sample_request_header().serialize();
    b[5] = 1;
    assert_eq!(
        RequestHeader::deserialize(&b).unwrap_err(),
        Error::Framing(FramingError::UnsupportedVersion)
    );
}

#[test]
fn header_unknown_provider() {
    let mut b = sample_request_header().serialize();
    b[6] = 200;
    assert_eq!(
        RequestHeader::deserialize(&b).unwrap_err(),
        Error::Framing(FramingError::UnknownValue)
    );
}

#[test]
fn header_unknown_auth_type() {
    let mut b = sample_request_header().serialize();
    b[17] = 9;
    assert_eq!(
        RequestHeader::deserialize(&b).unwrap_err(),
        Error::Framing(FramingError::UnknownValue)
    );
}

#[test]
fn header_body_over_bound() {
    let mut h = sample_request_header();
    h.body_len = MAX_BODY_LEN + 1;
    assert_eq!(
        RequestHeader::deserialize(&h.serialize()).unwrap_err(),
        Error::Framing(FramingError::LengthTooLarge)
    );
    h.body_len = MAX_BODY_LEN;
    assert_eq!(RequestHeader::deserialize(&h.serialize()).unwrap(), h);
}

#[test]
fn header_auth_over_bound() {
    let mut h = sample_request_header();
    h.auth_len = MAX_AUTH_LEN + 1;
    assert_eq!(
        RequestHeader::deserialize(&h.serialize()).unwrap_err(),
        Error::Framing(FramingError::LengthTooLarge)
    );
}

#[test]
fn header_wrong_size() {
    let b = sample_request_header().serialize();
    assert_eq!(
        RequestHeader::deserialize(&b[..REQUEST_HEADER_SIZE - 1]).unwrap_err(),
        Error::Framing(FramingError::LengthMismatch)
    );
}

#[test]
fn enum_codes_round_trip() {
    for p in [
        ProviderID::CoreProvider,
        ProviderID::MbedProvider,
        ProviderID::Pkcs11Provider,
        ProviderID::TpmProvider,
    ] {
        assert_eq!(ProviderID::from_u8(p.to_u8()), Some(p));
    }
    assert_eq!(ProviderID::from_u8(4), None);
    assert_eq!(AuthType::from_u8(AuthType::NoAuth.to_u8()), Some(AuthType::NoAuth));
    assert_eq!(AuthType::from_u8(2), None);
    assert_eq!(BodyType::from_u8(0), Some(BodyType::LengthPrefixed));
    assert_eq!(BodyType::from_u8(1), None);
}
