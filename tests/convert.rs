use parsec_interface::convert::LengthPrefixedConverter;
use parsec_interface::error::Error;
use parsec_interface::operations::{NativeOperation, NativeResult, Opcode};

#[test]
fn ping_operation_round_trip() {
    let c = LengthPrefixedConverter;
    let body = c.operation_to_body(NativeOperation::Ping).unwrap();
    assert!(body.is_empty());
    let op = c.body_to_operation(body, Opcode::Ping.to_u16()).unwrap();
    assert_eq!(op, NativeOperation::Ping);
}

#[test]
fn create_key_round_trip_deep_equal() {
    let c = LengthPrefixedConverter;
    let op = NativeOperation::CreateKey {
        key_name: b"my key".to_vec(),
        key_type: 3,
        key_bits: 2048,
    };
    let body = c.operation_to_body(op.clone()).unwrap();
    let back = c.body_to_operation(body, Opcode::CreateKey.to_u16()).unwrap();
    assert_eq!(back, op);
    assert_eq!(back.opcode(), Opcode::CreateKey);
}

#[test]
fn create_key_exact_body() {
    let c = LengthPrefixedConverter;
    let op = NativeOperation::CreateKey {
        key_name: vec![0x61, 0x62],
        key_type: 1,
        key_bits: 0x0100,
    };
    assert_eq!(
        c.operation_to_body(op).unwrap(),
        vec![2, 0, 0, 0, 0x61, 0x62, 1, 0, 0, 0, 0, 1, 0, 0]
    );
}

#[test]
fn every_operation_round_trips() {
    let c = LengthPrefixedConverter;
    let ops = vec![
        NativeOperation::DestroyKey { key_name: b"k".to_vec() },
        NativeOperation::SignHash { key_name: b"k".to_vec(), hash: vec![1, 2, 3] },
        NativeOperation::VerifyHash {
            key_name: b"k".to_vec(),
            hash: vec![1, 2, 3],
            signature: vec![4, 5],
        },
        NativeOperation::ExportPublicKey { key_name: Vec::new() },
    ];
    for op in ops {
        let code = op.opcode().to_u16();
        let body = c.operation_to_body(op.clone()).unwrap();
        assert_eq!(c.body_to_operation(body, code).unwrap(), op);
    }
}

#[test]
fn every_result_round_trips() {
    let c = LengthPrefixedConverter;
    let results = vec![
        NativeResult::Ping { wire_protocol_version_maj: 1, wire_protocol_version_min: 0 },
        NativeResult::CreateKey,
        NativeResult::DestroyKey,
        NativeResult::SignHash { signature: vec![9, 8, 7] },
        NativeResult::VerifyHash,
        NativeResult::ExportPublicKey { data: vec![0x04, 0x11] },
    ];
    for res in results {
        let code = res.opcode().to_u16();
        let body = c.result_to_body(res.clone()).unwrap();
        assert_eq!(c.body_to_result(body, code).unwrap(), res);
    }
}

#[test]
fn ping_result_exact_body() {
    let c = LengthPrefixedConverter;
    let res = NativeResult::Ping { wire_protocol_version_maj: 1, wire_protocol_version_min: 0 };
    assert_eq!(c.result_to_body(res).unwrap(), vec![1, 0]);
}

#[test]
fn unknown_opcode_is_unsupported() {
    let c = LengthPrefixedConverter;
    assert_eq!(Opcode::from_u16(0), None);
    assert_eq!(c.body_to_operation(Vec::new(), 0).unwrap_err(), Error::UnsupportedOpcode);
    assert_eq!(c.body_to_result(Vec::new(), 0).unwrap_err(), Error::UnsupportedOpcode);
    assert_eq!(c.body_to_operation(vec![1], 999).unwrap_err(), Error::UnsupportedOpcode);
    assert_eq!(c.body_to_result(vec![1], 999).unwrap_err(), Error::UnsupportedOpcode);
}

#[test]
fn malformed_bodies_are_refused() {
    let c = LengthPrefixedConverter;
    // trailing byte after a ping
    assert_eq!(c.body_to_operation(vec![0], 1).unwrap_err(), Error::MalformedBody);
    // name length beyond the body
    assert_eq!(c.body_to_operation(vec![5, 0, 0, 0, 1], 3).unwrap_err(), Error::MalformedBody);
    // create key missing its bit count
    assert_eq!(
        c.body_to_operation(vec![0, 0, 0, 0, 1, 0, 0, 0], 2).unwrap_err(),
        Error::MalformedBody
    );
    // ping result of the wrong size
    assert_eq!(c.body_to_result(vec![1], 1).unwrap_err(), Error::MalformedBody);
    // empty result with a byte in it
    assert_eq!(c.body_to_result(vec![1], 2).unwrap_err(), Error::MalformedBody);
}

#[test]
fn opcode_values() {
    assert_eq!(Opcode::Ping.to_u16(), 1);
    assert_eq!(Opcode::ExportPublicKey.to_u16(), 6);
    assert_eq!(Opcode::from_u16(4), Some(Opcode::SignHash));
    assert_eq!(Opcode::from_u16(7), None);
}
