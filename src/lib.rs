//! Wire-protocol interface layer of a security service: a byte-stream model,
//! the fixed-layout header codec, the request and response envelopes with their
//! opaque authentication segment, and the opcode-indexed conversion between
//! message bodies and typed operations and results.
pub mod error;
pub mod stream;
pub mod request_auth;
pub mod header;
pub mod envelope;
pub mod operations;
pub mod convert;

pub use convert::LengthPrefixedConverter;
pub use envelope::{Request, Response};
pub use error::{Error, FramingError};
pub use header::{AuthType, BodyType, ProviderID, RequestHeader, ResponseHeader};
pub use operations::{NativeOperation, NativeResult, Opcode};
pub use request_auth::RequestAuth;
pub use stream::{ByteReader, ByteWriter};
