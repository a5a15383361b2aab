use vstd::prelude::*;
use vstd::bytes::*;
use crate::error::Error;
use crate::operations::{
    opcode_code, opcode_of_code, operation_opcode, result_opcode, NativeOperation, NativeResult, Opcode,
    OperationModel, ResultModel,
};
use crate::stream::{ByteReader, ByteWriter};

verus! {

broadcast use vstd::seq_lib::group_seq_properties;

/// Largest byte string a body field can carry: its length is written as a
/// little-endian `u32`.
pub open spec fn field_fits(b: Seq<u8>) -> bool {
    b.len() <= u32::MAX
}

/// Wire form of an integer field: four bytes, little-endian.
pub open spec fn int_field(v: u32) -> Seq<u8> {
    spec_u32_to_le_bytes(v)
}

/// Wire form of a byte-string field: its length as an integer field, then
/// its bytes.
pub open spec fn bytes_field(b: Seq<u8>) -> Seq<u8> {
    spec_u32_to_le_bytes(b.len() as u32) + b
}

/// Reads an integer field off the front of `s`, giving it and what follows.
pub open spec fn take_int_field(s: Seq<u8>) -> Option<(u32, Seq<u8>)> {
    if s.len() < 4 {
        None
    } else {
        Some((spec_u32_from_le_bytes(s.take(4)), s.skip(4)))
    }
}

/// Reads a byte-string field off the front of `s`, giving it and what
/// follows.
pub open spec fn take_bytes_field(s: Seq<u8>) -> Option<(Seq<u8>, Seq<u8>)> {
    if s.len() < 4 {
        None
    } else {
        let n = spec_u32_from_le_bytes(s.take(4));
        if s.len() - 4 < n {
            None
        } else {
            Some((s.subrange(4, 4 + n), s.skip(4 + n)))
        }
    }
}

proof fn lemma_take_int_field(v: u32, rest: Seq<u8>)
    ensures
        take_int_field(int_field(v) + rest) == Some((v, rest)),
{
    lemma_auto_spec_u32_to_from_le_bytes();
    let s = int_field(v) + rest;
    assert(s.take(4) =~= int_field(v));
    assert(s.skip(4) =~= rest);
}

proof fn lemma_take_bytes_field(b: Seq<u8>, rest: Seq<u8>)
    requires
        field_fits(b),
    ensures
        take_bytes_field(bytes_field(b) + rest) == Some((b, rest)),
{
    lemma_auto_spec_u32_to_from_le_bytes();
    let s = bytes_field(b) + rest;
    assert(s.take(4) =~= spec_u32_to_le_bytes(b.len() as u32));
    assert(s.subrange(4, 4 + b.len() as int) =~= b);
    assert(s.skip(4 + b.len() as int) =~= rest);
}

proof fn lemma_int_field_unique(s: Seq<u8>)
    requires
        take_int_field(s) is Some,
    ensures
        s == int_field(take_int_field(s)->Some_0.0) + take_int_field(s)->Some_0.1,
{
    lemma_auto_spec_u32_to_from_le_bytes();
    assert(spec_u32_to_le_bytes(spec_u32_from_le_bytes(s.take(4))) == s.take(4));
    assert(s =~= int_field(take_int_field(s)->Some_0.0) + take_int_field(s)->Some_0.1);
}

proof fn lemma_bytes_field_unique(s: Seq<u8>)
    requires
        take_bytes_field(s) is Some,
    ensures
        field_fits(take_bytes_field(s)->Some_0.0),
        s == bytes_field(take_bytes_field(s)->Some_0.0) + take_bytes_field(s)->Some_0.1,
{
    lemma_auto_spec_u32_to_from_le_bytes();
    let n = spec_u32_from_le_bytes(s.take(4));
    assert(spec_u32_to_le_bytes(n) == s.take(4));
    let b = take_bytes_field(s)->Some_0.0;
    assert(b.len() as u32 == n);
    assert(s =~= bytes_field(b) + take_bytes_field(s)->Some_0.1);
}

fn read_int_field(rd: &mut ByteReader) -> (r: Result<u32, Error>)
    ensures
        match take_int_field(old(rd)@) {
            None => r == Err::<u32, Error>(Error::MalformedBody),
            Some((v, rest)) => r == Ok::<u32, Error>(v) && final(rd)@ == rest,
        },
{
    match rd.read_exact(4) {
        Ok(raw) => Ok(u32_from_le_bytes(raw.as_slice())),
        Err(_) => Err(Error::MalformedBody),
    }
}

fn read_bytes_field(rd: &mut ByteReader) -> (r: Result<Vec<u8>, Error>)
    ensures
        match take_bytes_field(old(rd)@) {
            None => r == Err::<Vec<u8>, Error>(Error::MalformedBody),
            Some((b, rest)) => r is Ok && r->Ok_0@ == b && final(rd)@ == rest,
        },
{
    let ghost s = rd@;
    let n = read_int_field(rd)?;
    match rd.read_exact(n as usize) {
        Ok(b) => {
            assert(b@ =~= s.subrange(4, 4 + n));
            assert(rd@ =~= s.skip(4 + n));
            Ok(b)
        },
        Err(_) => Err(Error::MalformedBody),
    }
}

fn write_int_field(w: &mut ByteWriter, v: u32)
    ensures
        final(w)@ == old(w)@ + int_field(v),
{
    let raw = u32_to_le_bytes(v);
    w.write_all(raw.as_slice());
}

fn write_bytes_field(w: &mut ByteWriter, b: &Vec<u8>)
    requires
        field_fits(b@),
    ensures
        final(w)@ == old(w)@ + bytes_field(b@),
{
    write_int_field(w, b.len() as u32);
    w.write_all(b.as_slice());
    assert(final(w)@ =~= old(w)@ + bytes_field(b@));
}

/// Every byte-string field of the operation fits its length prefix.
pub open spec fn operation_fits(m: OperationModel) -> bool {
    match m {
        OperationModel::Ping => true,
        OperationModel::CreateKey { key_name, .. } => field_fits(key_name),
        OperationModel::DestroyKey { key_name } => field_fits(key_name),
        OperationModel::SignHash { key_name, hash } => field_fits(key_name) && field_fits(hash),
        OperationModel::VerifyHash { key_name, hash, signature } => field_fits(key_name)
            && field_fits(hash) && field_fits(signature),
        OperationModel::ExportPublicKey { key_name } => field_fits(key_name),
    }
}

/// Every byte-string field of the result fits its length prefix.
pub open spec fn result_fits(m: ResultModel) -> bool {
    match m {
        ResultModel::SignHash { signature } => field_fits(signature),
        ResultModel::ExportPublicKey { data } => field_fits(data),
        _ => true,
    }
}

/// The body that encodes an operation: its fields in declaration order.
pub open spec fn operation_body(m: OperationModel) -> Seq<u8> {
    match m {
        OperationModel::Ping => Seq::empty(),
        OperationModel::CreateKey { key_name, key_type, key_bits } => bytes_field(key_name) + (
        int_field(key_type) + int_field(key_bits)),
        OperationModel::DestroyKey { key_name } => bytes_field(key_name),
        OperationModel::SignHash { key_name, hash } => bytes_field(key_name) + bytes_field(hash),
        OperationModel::VerifyHash { key_name, hash, signature } => bytes_field(key_name) + (
        bytes_field(hash) + bytes_field(signature)),
        OperationModel::ExportPublicKey { key_name } => bytes_field(key_name),
    }
}

/// The body that encodes a result: its fields in declaration order; the
/// two version numbers of a ping result are one byte each.
pub open spec fn result_body(m: ResultModel) -> Seq<u8> {
    match m {
        ResultModel::Ping { wire_protocol_version_maj, wire_protocol_version_min } => seq![
            wire_protocol_version_maj,
            wire_protocol_version_min,
        ],
        ResultModel::SignHash { signature } => bytes_field(signature),
        ResultModel::ExportPublicKey { data } => bytes_field(data),
        _ => Seq::empty(),
    }
}

/// Reads one byte-string field that must take up all of `s`.
pub open spec fn parse_one_bytes(s: Seq<u8>) -> Option<Seq<u8>> {
    match take_bytes_field(s) {
        Some((b, rest)) => if rest.len() == 0 {
            Some(b)
        } else {
            None
        },
        None => None,
    }
}

/// The operation of the given opcode that a body decodes to: all of it, or
/// nothing.
pub open spec fn parse_operation(o: Opcode, s: Seq<u8>) -> Option<OperationModel> {
    match o {
        Opcode::Ping => if s.len() == 0 {
            Some(OperationModel::Ping)
        } else {
            None
        },
        Opcode::CreateKey => match take_bytes_field(s) {
            Some((key_name, s1)) => match take_int_field(s1) {
                Some((key_type, s2)) => match take_int_field(s2) {
                    Some((key_bits, s3)) => if s3.len() == 0 {
                        Some(OperationModel::CreateKey { key_name, key_type, key_bits })
                    } else {
                        None
                    },
                    None => None,
                },
                None => None,
            },
            None => None,
        },
        Opcode::DestroyKey => match parse_one_bytes(s) {
            Some(key_name) => Some(OperationModel::DestroyKey { key_name }),
            None => None,
        },
        Opcode::SignHash => match take_bytes_field(s) {
            Some((key_name, s1)) => match parse_one_bytes(s1) {
                Some(hash) => Some(OperationModel::SignHash { key_name, hash }),
                None => None,
            },
            None => None,
        },
        Opcode::VerifyHash => match take_bytes_field(s) {
            Some((key_name, s1)) => match take_bytes_field(s1) {
                Some((hash, s2)) => match parse_one_bytes(s2) {
                    Some(signature) => Some(OperationModel::VerifyHash { key_name, hash, signature }),
                    None => None,
                },
                None => None,
            },
            None => None,
        },
        Opcode::ExportPublicKey => match parse_one_bytes(s) {
            Some(key_name) => Some(OperationModel::ExportPublicKey { key_name }),
            None => None,
        },
    }
}

/// The result of the given opcode that a body decodes to: all of it, or
/// nothing.
pub open spec fn parse_result(o: Opcode, s: Seq<u8>) -> Option<ResultModel> {
    match o {
        Opcode::Ping => if s.len() == 2 {
            Some(
                ResultModel::Ping { wire_protocol_version_maj: s[0], wire_protocol_version_min: s[1] },
            )
        } else {
            None
        },
        Opcode::CreateKey => if s.len() == 0 {
            Some(ResultModel::CreateKey)
        } else {
            None
        },
        Opcode::DestroyKey => if s.len() == 0 {
            Some(ResultModel::DestroyKey)
        } else {
            None
        },
        Opcode::SignHash => match parse_one_bytes(s) {
            Some(signature) => Some(ResultModel::SignHash { signature }),
            None => None,
        },
        Opcode::VerifyHash => if s.len() == 0 {
            Some(ResultModel::VerifyHash)
        } else {
            None
        },
        Opcode::ExportPublicKey => match parse_one_bytes(s) {
            Some(data) => Some(ResultModel::ExportPublicKey { data }),
            None => None,
        },
    }
}

/// What `body_to_operation` gives for a body and a wire opcode.
pub open spec fn decode_operation(body: Seq<u8>, opcode: u16) -> Result<OperationModel, Error> {
    match opcode_of_code(opcode) {
        None => Err(Error::UnsupportedOpcode),
        Some(o) => match parse_operation(o, body) {
            None => Err(Error::MalformedBody),
            Some(m) => Ok(m),
        },
    }
}

/// What `body_to_result` gives for a body and a wire opcode.
pub open spec fn decode_result(body: Seq<u8>, opcode: u16) -> Result<ResultModel, Error> {
    match opcode_of_code(opcode) {
        None => Err(Error::UnsupportedOpcode),
        Some(o) => match parse_result(o, body) {
            None => Err(Error::MalformedBody),
            Some(m) => Ok(m),
        },
    }
}

fn finish(rd: &ByteReader) -> (r: Result<(), Error>)
    ensures
        rd@.len() == 0 ==> r is Ok,
        rd@.len() != 0 ==> r == Err::<(), Error>(Error::MalformedBody),
{
    if rd.remaining_len() == 0 {
        Ok(())
    } else {
        Err(Error::MalformedBody)
    }
}

fn read_one_bytes(rd: &mut ByteReader) -> (r: Result<Vec<u8>, Error>)
    ensures
        match parse_one_bytes(old(rd)@) {
            None => r == Err::<Vec<u8>, Error>(Error::MalformedBody),
            Some(b) => r is Ok && r->Ok_0@ == b,
        },
{
    let b = read_bytes_field(rd)?;
    finish(rd)?;
    Ok(b)
}

/// Converter for bodies in the length-prefixed encoding: integer fields
/// are four little-endian bytes, byte-string fields a four-byte
/// little-endian length and then the bytes.
pub struct LengthPrefixedConverter;

impl LengthPrefixedConverter {
    /// Decodes a request body as the operation of the given wire opcode.
    /// An opcode outside the registry gives `Error::UnsupportedOpcode`; a
    /// body that is not exactly one encoded operation of that opcode gives
    /// `Error::MalformedBody`.
    pub fn body_to_operation(&self, body: Vec<u8>, opcode: u16) -> (r: Result<
        NativeOperation,
        Error,
    >)
        ensures
            match decode_operation(body@, opcode) {
                Ok(m) => r is Ok && r->Ok_0@ == m,
                Err(e) => r == Err::<NativeOperation, Error>(e),
            },
    {
        let o = match Opcode::from_u16(opcode) {
            Some(o) => o,
            None => return Err(Error::UnsupportedOpcode),
        };
        let mut rd = ByteReader::new(body);
        match o {
            Opcode::Ping => {
                finish(&rd)?;
                Ok(NativeOperation::Ping)
            },
            Opcode::CreateKey => {
                let key_name = read_bytes_field(&mut rd)?;
                let key_type = read_int_field(&mut rd)?;
                let key_bits = read_int_field(&mut rd)?;
                finish(&rd)?;
                Ok(NativeOperation::CreateKey { key_name, key_type, key_bits })
            },
            Opcode::DestroyKey => {
                let key_name = read_one_bytes(&mut rd)?;
                Ok(NativeOperation::DestroyKey { key_name })
            },
            Opcode::SignHash => {
                let key_name = read_bytes_field(&mut rd)?;
                let hash = read_one_bytes(&mut rd)?;
                Ok(NativeOperation::SignHash { key_name, hash })
            },
            Opcode::VerifyHash => {
                let key_name = read_bytes_field(&mut rd)?;
                let hash = read_bytes_field(&mut rd)?;
                let signature = read_one_bytes(&mut rd)?;
                Ok(NativeOperation::VerifyHash { key_name, hash, signature })
            },
            Opcode::ExportPublicKey => {
                let key_name = read_one_bytes(&mut rd)?;
                Ok(NativeOperation::ExportPublicKey { key_name })
            },
        }
    }

    /// Decodes a response body as the result of the given wire opcode.
    /// An opcode outside the registry gives `Error::UnsupportedOpcode`; a
    /// body that is not exactly one encoded result of that opcode gives
    /// `Error::MalformedBody`.
    pub fn body_to_result(&self, body: Vec<u8>, opcode: u16) -> (r: Result<NativeResult, Error>)
        ensures
            match decode_result(body@, opcode) {
                Ok(m) => r is Ok && r->Ok_0@ == m,
                Err(e) => r == Err::<NativeResult, Error>(e),
            },
    {
        let o = match Opcode::from_u16(opcode) {
            Some(o) => o,
            None => return Err(Error::UnsupportedOpcode),
        };
        match o {
            Opcode::Ping => {
                if body.len() != 2 {
                    return Err(Error::MalformedBody);
                }
                Ok(
                    NativeResult::Ping {
                        wire_protocol_version_maj: body[0],
                        wire_protocol_version_min: body[1],
                    },
                )
            },
            Opcode::CreateKey => {
                if body.len() != 0 {
                    return Err(Error::MalformedBody);
                }
                Ok(NativeResult::CreateKey)
            },
            Opcode::DestroyKey => {
                if body.len() != 0 {
                    return Err(Error::MalformedBody);
                }
                Ok(NativeResult::DestroyKey)
            },
            Opcode::SignHash => {
                let mut rd = ByteReader::new(body);
                let signature = read_one_bytes(&mut rd)?;
                Ok(NativeResult::SignHash { signature })
            },
            Opcode::VerifyHash => {
                if body.len() != 0 {
                    return Err(Error::MalformedBody);
                }
                Ok(NativeResult::VerifyHash)
            },
            Opcode::ExportPublicKey => {
                let mut rd = ByteReader::new(body);
                let data = read_one_bytes(&mut rd)?;
                Ok(NativeResult::ExportPublicKey { data })
            },
        }
    }

    /// Encodes an operation as a request body. A byte-string field too long
    /// for its length prefix gives `Error::FieldTooLong`.
    pub fn operation_to_body(&self, op: NativeOperation) -> (r: Result<Vec<u8>, Error>)
        ensures
            operation_fits(op@) ==> r is Ok && r->Ok_0@ == operation_body(op@),
            !operation_fits(op@) ==> r == Err::<Vec<u8>, Error>(Error::FieldTooLong),
    {
        let mut w = ByteWriter::new();
        match &op {
            NativeOperation::Ping => {},
            NativeOperation::CreateKey { key_name, key_type, key_bits } => {
                if key_name.len() > u32::MAX as usize {
                    return Err(Error::FieldTooLong);
                }
                write_bytes_field(&mut w, key_name);
                write_int_field(&mut w, *key_type);
                write_int_field(&mut w, *key_bits);
            },
            NativeOperation::DestroyKey { key_name } | NativeOperation::ExportPublicKey {
                key_name,
            } => {
                if key_name.len() > u32::MAX as usize {
                    return Err(Error::FieldTooLong);
                }
                write_bytes_field(&mut w, key_name);
            },
            NativeOperation::SignHash { key_name, hash } => {
                if key_name.len() > u32::MAX as usize || hash.len() > u32::MAX as usize {
                    return Err(Error::FieldTooLong);
                }
                write_bytes_field(&mut w, key_name);
                write_bytes_field(&mut w, hash);
            },
            NativeOperation::VerifyHash { key_name, hash, signature } => {
                if key_name.len() > u32::MAX as usize || hash.len() > u32::MAX as usize
                    || signature.len() > u32::MAX as usize {
                    return Err(Error::FieldTooLong);
                }
                write_bytes_field(&mut w, key_name);
                write_bytes_field(&mut w, hash);
                write_bytes_field(&mut w, signature);
            },
        }
        assert(w@ =~= operation_body(op@));
        Ok(w.into_bytes())
    }

    /// Encodes a result as a response body. A byte-string field too long for
    /// its length prefix gives `Error::FieldTooLong`.
    pub fn result_to_body(&self, res: NativeResult) -> (r: Result<Vec<u8>, Error>)
        ensures
            result_fits(res@) ==> r is Ok && r->Ok_0@ == result_body(res@),
            !result_fits(res@) ==> r == Err::<Vec<u8>, Error>(Error::FieldTooLong),
    {
        let mut w = ByteWriter::new();
        match &res {
            NativeResult::Ping { wire_protocol_version_maj, wire_protocol_version_min } => {
                let v = vec![*wire_protocol_version_maj, *wire_protocol_version_min];
                w.write_all(v.as_slice());
            },
            NativeResult::SignHash { signature: bytes } | NativeResult::ExportPublicKey {
                data: bytes,
            } => {
                if bytes.len() > u32::MAX as usize {
                    return Err(Error::FieldTooLong);
                }
                write_bytes_field(&mut w, bytes);
            },
            _ => {},
        }
        assert(w@ =~= result_body(res@));
        Ok(w.into_bytes())
    }
}

proof fn lemma_parse_one_bytes(b: Seq<u8>)
    requires
        field_fits(b),
    ensures
        parse_one_bytes(bytes_field(b)) == Some(b),
{
    lemma_take_bytes_field(b, Seq::empty());
    assert(bytes_field(b) + Seq::<u8>::empty() =~= bytes_field(b));
}

/// Decoding the body of an encodable operation under its own opcode gives
/// the operation back.
pub proof fn lemma_operation_round_trip(m: OperationModel)
    requires
        operation_fits(m),
    ensures
        decode_operation(operation_body(m), opcode_code(operation_opcode(m))) == Ok::<
            OperationModel,
            Error,
        >(m),
{
    match m {
        OperationModel::Ping => {},
        OperationModel::CreateKey { key_name, key_type, key_bits } => {
            lemma_take_bytes_field(key_name, int_field(key_type) + int_field(key_bits));
            lemma_take_int_field(key_type, int_field(key_bits));
            lemma_take_int_field(key_bits, Seq::empty());
            assert(int_field(key_bits) + Seq::<u8>::empty() =~= int_field(key_bits));
        },
        OperationModel::DestroyKey { key_name } => {
            lemma_parse_one_bytes(key_name);
        },
        OperationModel::SignHash { key_name, hash } => {
            lemma_take_bytes_field(key_name, bytes_field(hash));
            lemma_parse_one_bytes(hash);
        },
        OperationModel::VerifyHash { key_name, hash, signature } => {
            lemma_take_bytes_field(key_name, bytes_field(hash) + bytes_field(signature));
            lemma_take_bytes_field(hash, bytes_field(signature));
            lemma_parse_one_bytes(signature);
        },
        OperationModel::ExportPublicKey { key_name } => {
            lemma_parse_one_bytes(key_name);
        },
    }
}

/// Decoding the body of an encodable result under its own opcode gives the
/// result back.
pub proof fn lemma_result_round_trip(m: ResultModel)
    requires
        result_fits(m),
    ensures
        decode_result(result_body(m), opcode_code(result_opcode(m))) == Ok::<ResultModel, Error>(m),
{
    match m {
        ResultModel::SignHash { signature } => {
            lemma_parse_one_bytes(signature);
        },
        ResultModel::ExportPublicKey { data } => {
            lemma_parse_one_bytes(data);
        },
        _ => {},
    }
}

proof fn lemma_parse_one_bytes_unique(s: Seq<u8>)
    requires
        parse_one_bytes(s) is Some,
    ensures
        field_fits(parse_one_bytes(s)->Some_0),
        s == bytes_field(parse_one_bytes(s)->Some_0),
{
    lemma_bytes_field_unique(s);
    let b = parse_one_bytes(s)->Some_0;
    assert(bytes_field(b) + Seq::<u8>::empty() =~= bytes_field(b));
    assert(take_bytes_field(s)->Some_0.1 =~= Seq::<u8>::empty());
}

/// A body that decodes as an operation is exactly that operation's encoding,
/// under that operation's opcode.
pub proof fn lemma_operation_decode_exact(body: Seq<u8>, opcode: u16)
    requires
        decode_operation(body, opcode) is Ok,
    ensures
        ({
            let m = decode_operation(body, opcode)->Ok_0;
            &&& operation_fits(m)
            &&& opcode_code(operation_opcode(m)) == opcode
            &&& operation_body(m) == body
        }),
{
    let o = opcode_of_code(opcode)->Some_0;
    match o {
        Opcode::Ping => {},
        Opcode::CreateKey => {
            lemma_bytes_field_unique(body);
            let s1 = take_bytes_field(body)->Some_0.1;
            lemma_int_field_unique(s1);
            let s2 = take_int_field(s1)->Some_0.1;
            lemma_int_field_unique(s2);
            let s3 = take_int_field(s2)->Some_0.1;
            assert(s3 =~= Seq::<u8>::empty());
            assert(int_field(take_int_field(s2)->Some_0.0) + s3 =~= int_field(
                take_int_field(s2)->Some_0.0,
            ));
        },
        Opcode::DestroyKey | Opcode::ExportPublicKey => {
            lemma_parse_one_bytes_unique(body);
        },
        Opcode::SignHash => {
            lemma_bytes_field_unique(body);
            lemma_parse_one_bytes_unique(take_bytes_field(body)->Some_0.1);
        },
        Opcode::VerifyHash => {
            lemma_bytes_field_unique(body);
            let s1 = take_bytes_field(body)->Some_0.1;
            lemma_bytes_field_unique(s1);
            lemma_parse_one_bytes_unique(take_bytes_field(s1)->Some_0.1);
        },
    }
}

/// A body that decodes as a result is exactly that result's encoding, under
/// that result's opcode.
pub proof fn lemma_result_decode_exact(body: Seq<u8>, opcode: u16)
    requires
        decode_result(body, opcode) is Ok,
    ensures
        ({
            let m = decode_result(body, opcode)->Ok_0;
            &&& result_fits(m)
            &&& opcode_code(result_opcode(m)) == opcode
            &&& result_body(m) == body
        }),
{
    let o = opcode_of_code(opcode)->Some_0;
    match o {
        Opcode::Ping => {
            assert(result_body(decode_result(body, opcode)->Ok_0) =~= body);
        },
        Opcode::SignHash | Opcode::ExportPublicKey => {
            lemma_parse_one_bytes_unique(body);
        },
        _ => {
            assert(body =~= Seq::<u8>::empty());
        },
    }
}

/// A wire opcode outside the registry is refused as unsupported by both
/// decoders, whatever the body.
pub proof fn lemma_unknown_opcode_unsupported(body: Seq<u8>, opcode: u16)
    requires
        opcode_of_code(opcode) is None,
    ensures
        decode_operation(body, opcode) == Err::<OperationModel, Error>(Error::UnsupportedOpcode),
        decode_result(body, opcode) == Err::<ResultModel, Error>(Error::UnsupportedOpcode),
{
}

} // verus!
