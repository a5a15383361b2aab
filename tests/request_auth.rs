use parsec_interface::request_auth::RequestAuth;
use parsec_interface::stream::{ByteReader, ByteWriter};
use parsec_interface::error::Error;

#[test]
fn empty_auth_has_no_bytes() {
    let auth = RequestAuth::from_bytes(Vec::new());
    assert_eq!(auth.len(), 0);
    assert!(auth.is_empty());
    assert_eq!(auth.bytes(), &[] as &[u8]);
}

#[test]
fn new_auth_is_empty() {
    let auth = RequestAuth::new();
    assert!(auth.is_empty());
    assert_eq!(auth.len(), 0);
}

#[test]
fn empty_auth_write_then_read_reproduces_it() {
    let auth = RequestAuth::from_bytes(Vec::new());
    let mut w = ByteWriter::new();
    auth.write_to_stream(&mut w);
    assert!(w.as_bytes().is_empty());
    let mut r = ByteReader::new(w.into_bytes());
    let back = RequestAuth::read_from_stream(&mut r, 0).unwrap();
    assert!(back.is_empty());
    assert_eq!(back.bytes(), auth.bytes());
}

#[test]
fn auth_bytes_are_kept() {
    let auth = RequestAuth::from_bytes(vec![1, 2, 3]);
    assert_eq!(auth.len(), 3);
    assert!(!auth.is_empty());
    assert_eq!(auth.bytes(), &[1u8, 2, 3]);
}

#[test]
fn auth_write_then_read_reproduces_it() {
    let auth = RequestAuth::from_bytes(b"secret".to_vec());
    let mut w = ByteWriter::new();
    auth.write_to_stream(&mut w);
    let mut r = ByteReader::new(w.into_bytes());
    let back = RequestAuth::read_from_stream(&mut r, 6).unwrap();
    assert_eq!(back.bytes(), b"secret");
    assert_eq!(r.remaining_len(), 0);
}

#[test]
fn auth_read_short_stream_is_io_error() {
    let mut r = ByteReader::new(vec![9, 9]);
    let res = RequestAuth::read_from_stream(&mut r, 3);
    assert_eq!(res.unwrap_err(), Error::Io);
    assert_eq!(r.remaining_len(), 2);
}

#[test]
fn reader_reads_exact_prefix() {
    let mut r = ByteReader::new(vec![1, 2, 3, 4, 5]);
    assert_eq!(r.read_exact(2).unwrap(), vec![1, 2]);
    assert_eq!(r.remaining_len(), 3);
    assert_eq!(r.read_exact(3).unwrap(), vec![3, 4, 5]);
    assert_eq!(r.read_exact(1).unwrap_err(), Error::Io);
}

#[test]
fn writer_appends_in_order() {
    let mut w = ByteWriter::new();
    w.write_all(&[1, 2]);
    w.write_all(&[]);
    w.write_all(&[3]);
    assert_eq!(w.into_bytes(), vec![1, 2, 3]);
}
