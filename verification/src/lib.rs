//! Decoding of integer streams of MapLibre Tiles (MLT): byte-level
//! techniques (FastPFor, varint), run-length and ZigZag decoding.

pub mod decoder;
pub mod encoder;
pub mod error;
pub mod message;
pub mod metadata;
pub mod vector;

pub use error::{
    ErrorLevel, MetadataErrorKind, MltError, MltResult, PropertyParseKind, ProtobufError,
    TechniqueDiscriminant, VarintError,
};
