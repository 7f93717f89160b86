use mlt::error::{
    ErrorLevel, MetadataErrorKind, MltError, PropertyParseKind, ProtobufError,
    TechniqueDiscriminant, VarintError,
};
use mlt::metadata::stream_encoding::{LogicalLevelTechnique, PhysicalLevelTechnique};
use mlt::vector::vector_type::VectorType;

#[test]
fn error_helpers_build_their_variants() {
    assert!(matches!(
        MltError::protobuf(12, ProtobufError::Truncated),
        MltError::Protobuf { offset: 12, kind: ProtobufError::Truncated }
    ));
    assert!(matches!(
        MltError::unsupported_physical(PhysicalLevelTechnique::Alp),
        MltError::UnsupportedTechnique {
            level: ErrorLevel::Physical,
            technique: TechniqueDiscriminant::Physical(PhysicalLevelTechnique::Alp)
        }
    ));
    assert!(matches!(
        MltError::unsupported_logical(LogicalLevelTechnique::Morton),
        MltError::UnsupportedTechnique {
            level: ErrorLevel::Logical,
            technique: TechniqueDiscriminant::Logical(LogicalLevelTechnique::Morton)
        }
    ));
    assert!(matches!(
        MltError::invalid_multiple(4, 7),
        MltError::InvalidLength { multiple_of: 4, got: 7 }
    ));
}

#[test]
fn error_conversions() {
    assert!(matches!(MltError::from(VarintError::TooLong), MltError::Varint(VarintError::TooLong)));
    assert!(matches!(
        MltError::from(bytes_varint::VarIntError::BufferUnderflow),
        MltError::Varint(VarintError::Eof)
    ));
    assert!(matches!(
        MltError::from(bytes_varint::VarIntError::NumericOverflow),
        MltError::Varint(VarintError::Overflow)
    ));
    let io = std::io::Error::new(std::io::ErrorKind::Other, "x");
    assert!(matches!(MltError::from(io), MltError::Io(_)));
    assert!(matches!(
        MltError::from(serde_columnar::ColumnarError::Unknown),
        MltError::RleDecode(_)
    ));
}

#[test]
fn plain_enums_compare() {
    assert_eq!(VectorType::Flat, VectorType::Flat);
    assert_ne!(VectorType::Const, VectorType::FsstDictionary);
    assert_eq!(PropertyParseKind::Other, PropertyParseKind::Other);
    assert_ne!(MetadataErrorKind::Missing, MetadataErrorKind::Malformed);
}

#[test]
fn messages_follow_the_error_texts() {
    assert_eq!(
        MltError::invalid_multiple(4, 7).message(),
        format!("Input length must be a multiple of {}, got {}", 4, 7)
    );
    assert_eq!(
        MltError::protobuf(1234567890, ProtobufError::UnexpectedWireType).message(),
        "Protobuf decode error at offset=1234567890 kind=UnexpectedWireType"
    );
    assert_eq!(
        MltError::PropertyParse { field: "name", at: Some(0), kind: PropertyParseKind::InvalidUtf8 }
            .message(),
        "Property parse error: field=name at=Some(0) kind=InvalidUtf8"
    );
    assert_eq!(
        MltError::PropertyParse { field: "x", at: None, kind: PropertyParseKind::Other }.message(),
        "Property parse error: field=x at=None kind=Other"
    );
    assert_eq!(
        MltError::SubtractOverflow { lhs: i32::MIN, rhs: 10 }.message(),
        "Subtract overflow: -2147483648 - 10"
    );
    assert_eq!(
        MltError::InvalidNumeric { field: "extent", got: u64::MAX }.message(),
        "Invalid numeric value for `extent`: got=18446744073709551615"
    );
    assert_eq!(MltError::Varint(VarintError::Eof).message(), "Varint decode error: Eof");
    assert_eq!(
        MltError::unsupported_logical(LogicalLevelTechnique::Rle).message(),
        "Unsupported technique at Logical: Logical(Rle)"
    );
    assert_eq!(
        MltError::unsupported_physical(PhysicalLevelTechnique::Plain).message(),
        "Unsupported technique at Physical: Physical(None)"
    );
    assert_eq!(
        MltError::UnsupportedIntStreamTechnique("Alp".to_string()).message(),
        "Unsupported technique in decode_int_stream: \"Alp\""
    );
    assert_eq!(
        MltError::CoordinateOverflow { coordinate: 0, shift: 31 }.message(),
        "Coordinate 0 too large for i32 (shift=31)"
    );
    assert_eq!(MltError::MissingField { field: "id" }.message(), "Missing required field `id`");
    assert_eq!(
        MltError::UnsupportedKeyTypeCode { code: 255 }.message(),
        "Unsupported key type: code=255"
    );
    let io = std::io::Error::new(std::io::ErrorKind::Other, "disk gone");
    assert_eq!(MltError::Io(io).message(), "disk gone");
}
