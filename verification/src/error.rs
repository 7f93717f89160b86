use vstd::prelude::*;

use crate::metadata::stream_encoding::{LogicalLevelTechnique, PhysicalLevelTechnique};

verus! {

/// `std::io::Error`, carried through `MltError::Io` and used to build
/// run-length decoding errors.
#[verifier::external_type_specification]
#[verifier::external_body]
pub struct ExIoError(std::io::Error);

/// `serde_columnar::ColumnarError`, carried through `MltError::RleDecode`.
#[verifier::external_type_specification]
#[verifier::external_body]
pub struct ExColumnarError(serde_columnar::ColumnarError);

/// `bytes_varint::VarIntError`, the failure of a varint read; its two
/// variants carry no data and are visible here.
#[verifier::external_type_specification]
pub struct ExVarIntError(bytes_varint::VarIntError);

pub type MltResult<T> = Result<T, MltError>;

/// Errors of MLT decoding.
#[derive(Debug)]
#[non_exhaustive]
pub enum MltError {
    PropertyParseError(String),
    UnsupportedKeyType(String),
    UnsupportedGeometryType(String),
    DecodeError(String),
    MetadataDecodeError(String),
    UnsupportedIntStreamTechnique(String),
    PropertyParse { field: &'static str, at: Option<usize>, kind: PropertyParseKind },
    UnsupportedKeyTypeCode { code: u8 },
    UnsupportedGeometryCode { code: u32 },
    MissingField { field: &'static str },
    InvalidNumeric { field: &'static str, got: u64 },
    InvalidLength { multiple_of: usize, got: usize },
    OutOfBounds { index: usize, len: usize },
    Varint(VarintError),
    Protobuf { offset: usize, kind: ProtobufError },
    MetadataDecode { field: &'static str, kind: MetadataErrorKind },
    RleOverflow { runs: usize, target: usize },
    FastPforDecode { expected: usize, got: usize },
    CoordinateOverflow { coordinate: u32, shift: u32 },
    SubtractOverflow { lhs: i32, rhs: i32 },
    UnsupportedTechnique { level: ErrorLevel, technique: TechniqueDiscriminant },
    Io(std::io::Error),
    RleDecode(serde_columnar::ColumnarError),
}

/// Where the technique applies.
#[derive(Debug, Clone, Copy, PartialEq, Eq, Structural)]
pub enum ErrorLevel {
    Physical,
    Logical,
}

/// Technique discriminant for messages.
#[derive(Debug, Clone, Copy, PartialEq, Eq, Structural)]
pub enum TechniqueDiscriminant {
    Physical(PhysicalLevelTechnique),
    Logical(LogicalLevelTechnique),
}

/// Fine-grained parse kinds.
#[derive(Debug, Clone, Copy, PartialEq, Eq, Structural)]
pub enum PropertyParseKind {
    InvalidUtf8,
    TypeMismatch,
    NumberParse,
    UnexpectedNull,
    UnexpectedEnd,
    Other,
}

/// Varint failures.
#[derive(Debug, Clone, Copy, PartialEq, Eq, Structural)]
pub enum VarintError {
    Eof,
    TooLong,
    Overflow,
    NonCanonical,
}

/// Coarse protobuf failures (no heap message).
#[derive(Debug, Clone, Copy, PartialEq, Eq, Structural)]
pub enum ProtobufError {
    Truncated,
    Malformed,
    InvalidTag,
    UnexpectedWireType,
    Utf8,
    Other,
}

/// Metadata decoding failures.
#[derive(Debug, Clone, Copy, PartialEq, Eq, Structural)]
pub enum MetadataErrorKind {
    Missing,
    Malformed,
    TypeMismatch,
    OutOfRange,
    Other,
}

impl MltError {
    pub fn protobuf(offset: usize, kind: ProtobufError) -> (r: Self)
        ensures
            r == (MltError::Protobuf { offset, kind }),
    {
        Self::Protobuf { offset, kind }
    }

    pub fn unsupported_physical(tech: PhysicalLevelTechnique) -> (r: Self)
        ensures
            r == (MltError::UnsupportedTechnique {
                level: ErrorLevel::Physical,
                technique: TechniqueDiscriminant::Physical(tech),
            }),
    {
        Self::UnsupportedTechnique {
            level: ErrorLevel::Physical,
            technique: TechniqueDiscriminant::Physical(tech),
        }
    }

    pub fn unsupported_logical(tech: LogicalLevelTechnique) -> (r: Self)
        ensures
            r == (MltError::UnsupportedTechnique {
                level: ErrorLevel::Logical,
                technique: TechniqueDiscriminant::Logical(tech),
            }),
    {
        Self::UnsupportedTechnique {
            level: ErrorLevel::Logical,
            technique: TechniqueDiscriminant::Logical(tech),
        }
    }

    pub fn invalid_multiple(multiple_of: usize, got: usize) -> (r: Self)
        ensures
            r == (MltError::InvalidLength { multiple_of, got }),
    {
        Self::InvalidLength { multiple_of, got }
    }
}

impl From<VarintError> for MltError {
    fn from(e: VarintError) -> (r: Self) {
        MltError::Varint(e)
    }
}

impl vstd::std_specs::convert::FromSpecImpl<VarintError> for MltError {
    open spec fn obeys_from_spec() -> bool {
        true
    }

    open spec fn from_spec(e: VarintError) -> MltError {
        MltError::Varint(e)
    }
}

impl From<std::io::Error> for MltError {
    fn from(e: std::io::Error) -> (r: Self) {
        MltError::Io(e)
    }
}

impl vstd::std_specs::convert::FromSpecImpl<std::io::Error> for MltError {
    open spec fn obeys_from_spec() -> bool {
        true
    }

    open spec fn from_spec(e: std::io::Error) -> MltError {
        MltError::Io(e)
    }
}

impl From<serde_columnar::ColumnarError> for MltError {
    fn from(e: serde_columnar::ColumnarError) -> (r: Self) {
        MltError::RleDecode(e)
    }
}

impl vstd::std_specs::convert::FromSpecImpl<serde_columnar::ColumnarError> for MltError {
    open spec fn obeys_from_spec() -> bool {
        true
    }

    open spec fn from_spec(e: serde_columnar::ColumnarError) -> MltError {
        MltError::RleDecode(e)
    }
}

/// The library's error for a failed varint read of `bytes_varint`.
pub open spec fn from_varint_error(e: bytes_varint::VarIntError) -> MltError {
    match e {
        bytes_varint::VarIntError::BufferUnderflow => MltError::Varint(VarintError::Eof),
        bytes_varint::VarIntError::NumericOverflow => MltError::Varint(VarintError::Overflow),
    }
}

/// A buffer underflow is an unexpected end of input, a numeric overflow an
/// overflow.
impl From<bytes_varint::VarIntError> for MltError {
    fn from(e: bytes_varint::VarIntError) -> (r: Self) {
        match e {
            bytes_varint::VarIntError::BufferUnderflow => MltError::Varint(VarintError::Eof),
            bytes_varint::VarIntError::NumericOverflow => MltError::Varint(VarintError::Overflow),
        }
    }
}

impl vstd::std_specs::convert::FromSpecImpl<bytes_varint::VarIntError> for MltError {
    open spec fn obeys_from_spec() -> bool {
        true
    }

    open spec fn from_spec(e: bytes_varint::VarIntError) -> MltError {
        from_varint_error(e)
    }
}

} // verus!
