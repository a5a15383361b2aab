use vstd::prelude::*;

verus! {

/// Operation codes, a closed and append-only set. Each has one operation
/// shape and one result shape.
#[derive(Debug, Clone, Copy, PartialEq, Eq, Structural)]
pub enum Opcode {
    Ping,
    CreateKey,
    DestroyKey,
    SignHash,
    VerifyHash,
    ExportPublicKey,
}

pub open spec fn opcode_code(o: Opcode) -> u16 {
    match o {
        Opcode::Ping => 1,
        Opcode::CreateKey => 2,
        Opcode::DestroyKey => 3,
        Opcode::SignHash => 4,
        Opcode::VerifyHash => 5,
        Opcode::ExportPublicKey => 6,
    }
}

/// The registry: which opcode a wire value stands for, if any.
pub open spec fn opcode_of_code(c: u16) -> Option<Opcode> {
    if c == 1 {
        Some(Opcode::Ping)
    } else if c == 2 {
        Some(Opcode::CreateKey)
    } else if c == 3 {
        Some(Opcode::DestroyKey)
    } else if c == 4 {
        Some(Opcode::SignHash)
    } else if c == 5 {
        Some(Opcode::VerifyHash)
    } else if c == 6 {
        Some(Opcode::ExportPublicKey)
    } else {
        None
    }
}

impl Opcode {
    /// The opcode's value on the wire.
    pub fn to_u16(self) -> (c: u16)
        ensures
            c == opcode_code(self),
    {
        match self {
            Opcode::Ping => 1,
            Opcode::CreateKey => 2,
            Opcode::DestroyKey => 3,
            Opcode::SignHash => 4,
            Opcode::VerifyHash => 5,
            Opcode::ExportPublicKey => 6,
        }
    }

    /// The opcode a wire value stands for; `None` for a value the registry
    /// does not hold.
    pub fn from_u16(c: u16) -> (o: Option<Opcode>)
        ensures
            o == opcode_of_code(c),
    {
        if c == 1 {
            Some(Opcode::Ping)
        } else if c == 2 {
            Some(Opcode::CreateKey)
        } else if c == 3 {
            Some(Opcode::DestroyKey)
        } else if c == 4 {
            Some(Opcode::SignHash)
        } else if c == 5 {
            Some(Opcode::VerifyHash)
        } else if c == 6 {
            Some(Opcode::ExportPublicKey)
        } else {
            None
        }
    }
}

/// Typed parameters of an operation, one variant per opcode.
#[derive(Debug, Clone, PartialEq, Eq)]
pub enum NativeOperation {
    Ping,
    CreateKey { key_name: Vec<u8>, key_type: u32, key_bits: u32 },
    DestroyKey { key_name: Vec<u8> },
    SignHash { key_name: Vec<u8>, hash: Vec<u8> },
    VerifyHash { key_name: Vec<u8>, hash: Vec<u8>, signature: Vec<u8> },
    ExportPublicKey { key_name: Vec<u8> },
}

/// Typed outcome of an operation, one variant per opcode.
#[derive(Debug, Clone, PartialEq, Eq)]
pub enum NativeResult {
    Ping { wire_protocol_version_maj: u8, wire_protocol_version_min: u8 },
    CreateKey,
    DestroyKey,
    SignHash { signature: Vec<u8> },
    VerifyHash,
    ExportPublicKey { data: Vec<u8> },
}

/// Mathematical model of a `NativeOperation`.
pub enum OperationModel {
    Ping,
    CreateKey { key_name: Seq<u8>, key_type: u32, key_bits: u32 },
    DestroyKey { key_name: Seq<u8> },
    SignHash { key_name: Seq<u8>, hash: Seq<u8> },
    VerifyHash { key_name: Seq<u8>, hash: Seq<u8>, signature: Seq<u8> },
    ExportPublicKey { key_name: Seq<u8> },
}

/// Mathematical model of a `NativeResult`.
pub enum ResultModel {
    Ping { wire_protocol_version_maj: u8, wire_protocol_version_min: u8 },
    CreateKey,
    DestroyKey,
    SignHash { signature: Seq<u8> },
    VerifyHash,
    ExportPublicKey { data: Seq<u8> },
}

impl View for NativeOperation {
    type V = OperationModel;

    open spec fn view(&self) -> OperationModel {
        match self {
            NativeOperation::Ping => OperationModel::Ping,
            NativeOperation::CreateKey { key_name, key_type, key_bits } => OperationModel::CreateKey {
                key_name: key_name@,
                key_type: *key_type,
                key_bits: *key_bits,
            },
            NativeOperation::DestroyKey { key_name } => OperationModel::DestroyKey {
                key_name: key_name@,
            },
            NativeOperation::SignHash { key_name, hash } => OperationModel::SignHash {
                key_name: key_name@,
                hash: hash@,
            },
            NativeOperation::VerifyHash { key_name, hash, signature } => OperationModel::VerifyHash {
                key_name: key_name@,
                hash: hash@,
                signature: signature@,
            },
            NativeOperation::ExportPublicKey { key_name } => OperationModel::ExportPublicKey {
                key_name: key_name@,
            },
        }
    }
}

impl View for NativeResult {
    type V = ResultModel;

    open spec fn view(&self) -> ResultModel {
        match self {
            NativeResult::Ping { wire_protocol_version_maj, wire_protocol_version_min } =>
                ResultModel::Ping {
                wire_protocol_version_maj: *wire_protocol_version_maj,
                wire_protocol_version_min: *wire_protocol_version_min,
            },
            NativeResult::CreateKey => ResultModel::CreateKey,
            NativeResult::DestroyKey => ResultModel::DestroyKey,
            NativeResult::SignHash { signature } => ResultModel::SignHash { signature: signature@ },
            NativeResult::VerifyHash => ResultModel::VerifyHash,
            NativeResult::ExportPublicKey { data } => ResultModel::ExportPublicKey { data: data@ },
        }
    }
}

/// The opcode an operation belongs to.
pub open spec fn operation_opcode(m: OperationModel) -> Opcode {
    match m {
        OperationModel::Ping => Opcode::Ping,
        OperationModel::CreateKey { .. } => Opcode::CreateKey,
        OperationModel::DestroyKey { .. } => Opcode::DestroyKey,
        OperationModel::SignHash { .. } => Opcode::SignHash,
        OperationModel::VerifyHash { .. } => Opcode::VerifyHash,
        OperationModel::ExportPublicKey { .. } => Opcode::ExportPublicKey,
    }
}

/// The opcode a result belongs to.
pub open spec fn result_opcode(m: ResultModel) -> Opcode {
    match m {
        ResultModel::Ping { .. } => Opcode::Ping,
        ResultModel::CreateKey => Opcode::CreateKey,
        ResultModel::DestroyKey => Opcode::DestroyKey,
        ResultModel::SignHash { .. } => Opcode::SignHash,
        ResultModel::VerifyHash => Opcode::VerifyHash,
        ResultModel::ExportPublicKey { .. } => Opcode::ExportPublicKey,
    }
}

impl NativeOperation {
    /// The opcode this operation belongs to.
    pub fn opcode(&self) -> (o: Opcode)
        ensures
            o == operation_opcode(self@),
    {
        match self {
            NativeOperation::Ping => Opcode::Ping,
            NativeOperation::CreateKey { .. } => Opcode::CreateKey,
            NativeOperation::DestroyKey { .. } => Opcode::DestroyKey,
            NativeOperation::SignHash { .. } => Opcode::SignHash,
            NativeOperation::VerifyHash { .. } => Opcode::VerifyHash,
            NativeOperation::ExportPublicKey { .. } => Opcode::ExportPublicKey,
        }
    }
}

impl NativeResult {
    /// The opcode this result belongs to.
    pub fn opcode(&self) -> (o: Opcode)
        ensures
            o == result_opcode(self@),
    {
        match self {
            NativeResult::Ping { .. } => Opcode::Ping,
            NativeResult::CreateKey => Opcode::CreateKey,
            NativeResult::DestroyKey => Opcode::DestroyKey,
            NativeResult::SignHash { .. } => Opcode::SignHash,
            NativeResult::VerifyHash => Opcode::VerifyHash,
            NativeResult::ExportPublicKey { .. } => Opcode::ExportPublicKey,
        }
    }
}

} // verus!
