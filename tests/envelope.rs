use parsec_interface::envelope::{Request, Response};
use parsec_interface::error::{Error, FramingError};
use parsec_interface::header::{
    AuthType, BodyType, ProviderID, RequestHeader, ResponseHeader, MAX_BODY_LEN,
    REQUEST_HEADER_SIZE,
};
use parsec_interface::request_auth::RequestAuth;
use parsec_interface::stream::{ByteReader, ByteWriter};

fn header(body_len: u32, auth_len: u16) -> RequestHeader {
    RequestHeader {
        version_maj: 1,
        version_min: 0,
        provider: ProviderID::CoreProvider,
        session: 42,
        content_type: BodyType::LengthPrefixed,
        accept_type: BodyType::LengthPrefixed,
        auth_type: AuthType::Simple,
        opcode: 1,
        body_len,
        auth_len,
    }
}

fn request_bytes() -> Vec<u8> {
    let req = Request {
        header: header(3, 2),
        body: vec![7, 8, 9],
        auth: RequestAuth::from_bytes(vec![0xAA, 0xBB]),
    };
    let mut w = ByteWriter::new();
    req.write_to_stream(&mut w).unwrap();
    w.into_bytes()
}

#[test]
fn request_layout_is_header_body_auth() {
    let b = request_bytes();
    assert_eq!(b.len(), REQUEST_HEADER_SIZE + 5);
    assert_eq!(&b[..REQUEST_HEADER_SIZE], header(3, 2).serialize().as_slice());
    assert_eq!(&b[REQUEST_HEADER_SIZE..], &[7u8, 8, 9, 0xAA, 0xBB]);
}

#[test]
fn request_read_then_write_reproduces_bytes() {
    let bytes = request_bytes();
    let mut r = ByteReader::new(bytes.clone());
    let req = Request::read_from_stream(&mut r).unwrap();
    assert_eq!(req.header, header(3, 2));
    assert_eq!(req.body, vec![7, 8, 9]);
    assert_eq!(req.auth.bytes(), &[0xAAu8, 0xBB]);
    assert_eq!(r.remaining_len(), 0);
    let mut w = ByteWriter::new();
    req.write_to_stream(&mut w).unwrap();
    assert_eq!(w.into_bytes(), bytes);
}

#[test]
fn request_read_leaves_following_bytes() {
    let mut bytes = request_bytes();
    bytes.push(0x55);
    let mut r = ByteReader::new(bytes);
    Request::read_from_stream(&mut r).unwrap();
    assert_eq!(r.read_exact(1).unwrap(), vec![0x55]);
}

#[test]
fn request_short_body_is_io_error() {
    let mut bytes = header(10, 0).serialize();
    bytes.extend_from_slice(&[1, 2, 3]);
    let mut r = ByteReader::new(bytes);
    assert_eq!(Request::read_from_stream(&mut r).unwrap_err(), Error::Io);
}

#[test]
fn request_short_auth_is_io_error() {
    let mut bytes = header(1, 4).serialize();
    bytes.extend_from_slice(&[1, 2, 3]);
    let mut r = ByteReader::new(bytes);
    assert_eq!(Request::read_from_stream(&mut r).unwrap_err(), Error::Io);
    assert_eq!(r.remaining_len(), 2);
}

#[test]
fn request_short_header_is_io_error() {
    let bytes = header(0, 0).serialize();
    let mut r = ByteReader::new(bytes[..REQUEST_HEADER_SIZE - 1].to_vec());
    assert_eq!(Request::read_from_stream(&mut r).unwrap_err(), Error::Io);
}

#[test]
fn request_oversized_body_is_framing_error_before_body() {
    let mut bytes = header(MAX_BODY_LEN + 1, 0).serialize();
    bytes.extend_from_slice(&[1, 2, 3]);
    let mut r = ByteReader::new(bytes);
    assert_eq!(
        Request::read_from_stream(&mut r).unwrap_err(),
        Error::Framing(FramingError::LengthTooLarge)
    );
    assert_eq!(r.remaining_len(), 3);
}

#[test]
fn request_write_length_mismatch() {
    let req = Request {
        header: header(4, 0),
        body: vec![1, 2, 3],
        auth: RequestAuth::new(),
    };
    let mut w = ByteWriter::new();
    assert_eq!(
        req.write_to_stream(&mut w).unwrap_err(),
        Error::Framing(FramingError::LengthMismatch)
    );
    assert!(w.as_bytes().is_empty());
}

#[test]
fn response_round_trip() {
    let resp = Response {
        header: ResponseHeader {
            version_maj: 1,
            version_min: 0,
            provider: ProviderID::TpmProvider,
            session: 3,
            content_type: BodyType::LengthPrefixed,
            accept_type: BodyType::LengthPrefixed,
            opcode: 4,
            body_len: 2,
        },
        body: vec![5, 6],
    };
    let mut w = ByteWriter::new();
    resp.write_to_stream(&mut w).unwrap();
    let bytes = w.into_bytes();
    let mut r = ByteReader::new(bytes.clone());
    let back = Response::read_from_stream(&mut r).unwrap();
    assert_eq!(back.header, resp.header);
    assert_eq!(back.body, resp.body);
    let mut w2 = ByteWriter::new();
    back.write_to_stream(&mut w2).unwrap();
    assert_eq!(w2.into_bytes(), bytes);
}
