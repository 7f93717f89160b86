use vstd::prelude::*;

use crate::error::{
    ErrorLevel, MetadataErrorKind, MltError, PropertyParseKind, ProtobufError,
    TechniqueDiscriminant, VarintError,
};
use crate::metadata::stream_encoding::{
    physical_technique_name, LogicalLevelTechnique, PhysicalLevelTechnique,
};

verus! {

// ---------------------------------------------------------------------------
// Numbers
// ---------------------------------------------------------------------------

/// The decimal digit `d` as a character.
pub open spec fn digit_char(d: nat) -> char {
    if d == 0 {
        '0'
    } else if d == 1 {
        '1'
    } else if d == 2 {
        '2'
    } else if d == 3 {
        '3'
    } else if d == 4 {
        '4'
    } else if d == 5 {
        '5'
    } else if d == 6 {
        '6'
    } else if d == 7 {
        '7'
    } else if d == 8 {
        '8'
    } else {
        '9'
    }
}

/// The decimal digits of `n`, most significant first, without leading zeros.
pub open spec fn decimal(n: nat) -> Seq<char>
    decreases n,
{
    if n < 10 {
        seq![digit_char(n)]
    } else {
        decimal(n / 10).push(digit_char(n % 10))
    }
}

/// The decimal form of a signed integer: a minus sign before negative ones.
pub open spec fn signed_decimal(x: int) -> Seq<char> {
    if x < 0 {
        seq!['-'] + decimal((-x) as nat)
    } else {
        decimal(x as nat)
    }
}

/// Appends one decimal digit.
fn push_digit(s: &mut String, d: u64)
    requires
        d < 10,
    ensures
        final(s)@ == old(s)@.push(digit_char(d as nat)),
{
    let ghost before = s@;
    if d == 0 {
        s.append("0");
        proof { reveal_strlit("0"); }
    } else if d == 1 {
        s.append("1");
        proof { reveal_strlit("1"); }
    } else if d == 2 {
        s.append("2");
        proof { reveal_strlit("2"); }
    } else if d == 3 {
        s.append("3");
        proof { reveal_strlit("3"); }
    } else if d == 4 {
        s.append("4");
        proof { reveal_strlit("4"); }
    } else if d == 5 {
        s.append("5");
        proof { reveal_strlit("5"); }
    } else if d == 6 {
        s.append("6");
        proof { reveal_strlit("6"); }
    } else if d == 7 {
        s.append("7");
        proof { reveal_strlit("7"); }
    } else if d == 8 {
        s.append("8");
        proof { reveal_strlit("8"); }
    } else {
        s.append("9");
        proof { reveal_strlit("9"); }
    }
    assert(s@ =~= before.push(digit_char(d as nat)));
}

/// Appends the decimal form of `n`.
fn push_decimal(s: &mut String, n: u64)
    ensures
        final(s)@ == old(s)@ + decimal(n as nat),
    decreases n,
{
    let ghost before = s@;
    if n >= 10 {
        push_decimal(s, n / 10);
    }
    push_digit(s, n % 10);
    proof {
        if n >= 10 {
            assert(s@ =~= before + decimal(n as nat));
        } else {
            assert(s@ =~= before + decimal(n as nat));
        }
    }
}

/// Appends the decimal form of `x`, with a minus sign where it is negative.
fn push_signed_decimal(s: &mut String, x: i32)
    ensures
        final(s)@ == old(s)@ + signed_decimal(x as int),
{
    let ghost before = s@;
    if x < 0 {
        s.append("-");
        proof { reveal_strlit("-"); }
        let magnitude: u64 = (-(x as i64)) as u64;
        push_decimal(s, magnitude);
        assert(s@ =~= before + signed_decimal(x as int));
    } else {
        push_decimal(s, x as u64);
    }
}

/// `{:?}` of an `Option<usize>`.
pub open spec fn option_debug(at: Option<usize>) -> Seq<char> {
    match at {
        Some(n) => "Some("@ + decimal(n as nat) + ")"@,
        None => "None"@,
    }
}

fn push_option_debug(s: &mut String, at: Option<usize>)
    ensures
        final(s)@ == old(s)@ + option_debug(at),
{
    let ghost before = s@;
    match at {
        Some(n) => {
            s.append("Some(");
            push_decimal(s, n as u64);
            s.append(")");
            assert(s@ =~= before + option_debug(at));
        },
        None => {
            s.append("None");
        },
    }
}

// ---------------------------------------------------------------------------
// Names
// ---------------------------------------------------------------------------

/// `{:?}` of a `PropertyParseKind`.
pub open spec fn property_parse_kind_name(k: PropertyParseKind) -> Seq<char> {
    match k {
        PropertyParseKind::InvalidUtf8 => "InvalidUtf8"@,
        PropertyParseKind::TypeMismatch => "TypeMismatch"@,
        PropertyParseKind::NumberParse => "NumberParse"@,
        PropertyParseKind::UnexpectedNull => "UnexpectedNull"@,
        PropertyParseKind::UnexpectedEnd => "UnexpectedEnd"@,
        PropertyParseKind::Other => "Other"@,
    }
}

fn push_property_parse_kind(s: &mut String, k: PropertyParseKind)
    ensures
        final(s)@ == old(s)@ + property_parse_kind_name(k),
{
    match k {
        PropertyParseKind::InvalidUtf8 => s.append("InvalidUtf8"),
        PropertyParseKind::TypeMismatch => s.append("TypeMismatch"),
        PropertyParseKind::NumberParse => s.append("NumberParse"),
        PropertyParseKind::UnexpectedNull => s.append("UnexpectedNull"),
        PropertyParseKind::UnexpectedEnd => s.append("UnexpectedEnd"),
        PropertyParseKind::Other => s.append("Other"),
    }
}

/// `{:?}` of a `ProtobufError`.
pub open spec fn protobuf_error_name(k: ProtobufError) -> Seq<char> {
    match k {
        ProtobufError::Truncated => "Truncated"@,
        ProtobufError::Malformed => "Malformed"@,
        ProtobufError::InvalidTag => "InvalidTag"@,
        ProtobufError::UnexpectedWireType => "UnexpectedWireType"@,
        ProtobufError::Utf8 => "Utf8"@,
        ProtobufError::Other => "Other"@,
    }
}

fn push_protobuf_error(s: &mut String, k: ProtobufError)
    ensures
        final(s)@ == old(s)@ + protobuf_error_name(k),
{
    match k {
        ProtobufError::Truncated => s.append("Truncated"),
        ProtobufError::Malformed => s.append("Malformed"),
        ProtobufError::InvalidTag => s.append("InvalidTag"),
        ProtobufError::UnexpectedWireType => s.append("UnexpectedWireType"),
        ProtobufError::Utf8 => s.append("Utf8"),
        ProtobufError::Other => s.append("Other"),
    }
}

/// `{:?}` of a `MetadataErrorKind`.
pub open spec fn metadata_error_kind_name(k: MetadataErrorKind) -> Seq<char> {
    match k {
        MetadataErrorKind::Missing => "Missing"@,
        MetadataErrorKind::Malformed => "Malformed"@,
        MetadataErrorKind::TypeMismatch => "TypeMismatch"@,
        MetadataErrorKind::OutOfRange => "OutOfRange"@,
        MetadataErrorKind::Other => "Other"@,
    }
}

fn push_metadata_error_kind(s: &mut String, k: MetadataErrorKind)
    ensures
        final(s)@ == old(s)@ + metadata_error_kind_name(k),
{
    match k {
        MetadataErrorKind::Missing => s.append("Missing"),
        MetadataErrorKind::Malformed => s.append("Malformed"),
        MetadataErrorKind::TypeMismatch => s.append("TypeMismatch"),
        MetadataErrorKind::OutOfRange => s.append("OutOfRange"),
        MetadataErrorKind::Other => s.append("Other"),
    }
}

/// `{:?}` of a `VarintError`.
pub open spec fn varint_error_name(k: VarintError) -> Seq<char> {
    match k {
        VarintError::Eof => "Eof"@,
        VarintError::TooLong => "TooLong"@,
        VarintError::Overflow => "Overflow"@,
        VarintError::NonCanonical => "NonCanonical"@,
    }
}

fn push_varint_error(s: &mut String, k: VarintError)
    ensures
        final(s)@ == old(s)@ + varint_error_name(k),
{
    match k {
        VarintError::Eof => s.append("Eof"),
        VarintError::TooLong => s.append("TooLong"),
        VarintError::Overflow => s.append("Overflow"),
        VarintError::NonCanonical => s.append("NonCanonical"),
    }
}

/// `{:?}` of an `ErrorLevel`.
pub open spec fn error_level_name(l: ErrorLevel) -> Seq<char> {
    match l {
        ErrorLevel::Physical => "Physical"@,
        ErrorLevel::Logical => "Logical"@,
    }
}

/// The name of a logical technique as it shows in messages.
pub open spec fn logical_technique_name(t: LogicalLevelTechnique) -> Seq<char> {
    match t {
        LogicalLevelTechnique::Plain => "None"@,
        LogicalLevelTechnique::Delta => "Delta"@,
        LogicalLevelTechnique::ComponentwiseDelta => "ComponentwiseDelta"@,
        LogicalLevelTechnique::Rle => "Rle"@,
        LogicalLevelTechnique::Morton => "Morton"@,
        LogicalLevelTechnique::PseudoDecimal => "PseudoDecimal"@,
    }
}

/// `{:?}` of a `TechniqueDiscriminant`.
pub open spec fn technique_debug(t: TechniqueDiscriminant) -> Seq<char> {
    match t {
        TechniqueDiscriminant::Physical(p) => "Physical("@ + physical_technique_name(p) + ")"@,
        TechniqueDiscriminant::Logical(l) => "Logical("@ + logical_technique_name(l) + ")"@,
    }
}

fn push_technique(s: &mut String, t: TechniqueDiscriminant)
    ensures
        final(s)@ == old(s)@ + technique_debug(t),
{
    let ghost before = s@;
    match t {
        TechniqueDiscriminant::Physical(p) => {
            s.append("Physical(");
            let name = p.name();
            s.append(name.as_str());
            s.append(")");
        },
        TechniqueDiscriminant::Logical(l) => {
            s.append("Logical(");
            match l {
                LogicalLevelTechnique::Plain => s.append("None"),
                LogicalLevelTechnique::Delta => s.append("Delta"),
                LogicalLevelTechnique::ComponentwiseDelta => s.append("ComponentwiseDelta"),
                LogicalLevelTechnique::Rle => s.append("Rle"),
                LogicalLevelTechnique::Morton => s.append("Morton"),
                LogicalLevelTechnique::PseudoDecimal => s.append("PseudoDecimal"),
            }
            s.append(")");
        },
    }
    assert(s@ =~= before + technique_debug(t));
}

// ---------------------------------------------------------------------------
// Outside text
// ---------------------------------------------------------------------------

/// A character that `{:?}` of a string writes as itself: printable ASCII
/// other than the quote and the backslash.
pub open spec fn plain_char(c: char) -> bool {
    ' ' <= c <= '~' && c != '"' && c != '\\'
}

/// `format!("{:?}", s)`: where every character of `s` is plain, the string
/// in double quotes; other characters are escaped in ways not stated here.
#[verifier::external_body]
fn str_debug(s: &str) -> (r: String)
    ensures
        (forall|i: int| 0 <= i < s@.len() ==> plain_char(#[trigger] s@[i])) ==> r@ == seq!['"']
            + s@ + seq!['"'],
{
    format!("{:?}", s)
}

/// `<std::io::Error as ToString>::to_string`; its text is not stated.
#[verifier::external_body]
fn io_error_text(e: &std::io::Error) -> String {
    e.to_string()
}

/// `<serde_columnar::ColumnarError as ToString>::to_string`; its text is not
/// stated.
#[verifier::external_body]
fn columnar_error_text(e: &serde_columnar::ColumnarError) -> String {
    e.to_string()
}

// ---------------------------------------------------------------------------
// Messages
// ---------------------------------------------------------------------------

/// The message of an error whose text the library makes itself; the errors
/// that wrap an outside error, and a technique name that is not plain text,
/// have none here.
pub open spec fn error_message(e: MltError) -> Option<Seq<char>> {
    match e {
        MltError::PropertyParseError(s) => Some("Unable to parse property: "@ + s@),
        MltError::UnsupportedKeyType(s) => Some("Unsupported key value type: "@ + s@),
        MltError::UnsupportedGeometryType(s) => Some("Unsupported geometry type: "@ + s@),
        MltError::DecodeError(s) => Some("Failed to decode protobuf: "@ + s@),
        MltError::MetadataDecodeError(s) => Some("Failed to decode metadata: "@ + s@),
        MltError::UnsupportedIntStreamTechnique(s) => if forall|i: int|
            0 <= i < s@.len() ==> plain_char(#[trigger] s@[i]) {
            Some("Unsupported technique in decode_int_stream: "@ + seq!['"'] + s@ + seq!['"'])
        } else {
            None
        },
        MltError::PropertyParse { field, at, kind } => Some(
            "Property parse error: field="@ + field@ + " at="@ + option_debug(at) + " kind="@
                + property_parse_kind_name(kind),
        ),
        MltError::UnsupportedKeyTypeCode { code } => Some(
            "Unsupported key type: code="@ + decimal(code as nat),
        ),
        MltError::UnsupportedGeometryCode { code } => Some(
            "Unsupported geometry type: code="@ + decimal(code as nat),
        ),
        MltError::MissingField { field } => Some("Missing required field `"@ + field@ + "`"@),
        MltError::InvalidNumeric { field, got } => Some(
            "Invalid numeric value for `"@ + field@ + "`: got="@ + decimal(got as nat),
        ),
        MltError::InvalidLength { multiple_of, got } => Some(
            "Input length must be a multiple of "@ + decimal(multiple_of as nat) + ", got "@
                + decimal(got as nat),
        ),
        MltError::OutOfBounds { index, len } => Some(
            "Index "@ + decimal(index as nat) + " is out of bounds for length "@ + decimal(
                len as nat,
            ),
        ),
        MltError::Varint(k) => Some("Varint decode error: "@ + varint_error_name(k)),
        MltError::Protobuf { offset, kind } => Some(
            "Protobuf decode error at offset="@ + decimal(offset as nat) + " kind="@
                + protobuf_error_name(kind),
        ),
        MltError::MetadataDecode { field, kind } => Some(
            "Metadata decode error: field="@ + field@ + " kind="@ + metadata_error_kind_name(kind),
        ),
        MltError::RleOverflow { runs, target } => Some(
            "Run-length decode would exceed target length: runs="@ + decimal(runs as nat)
                + " target="@ + decimal(target as nat),
        ),
        MltError::FastPforDecode { expected, got } => Some(
            "FastPFor decode failed: expected="@ + decimal(expected as nat) + " got="@ + decimal(
                got as nat,
            ),
        ),
        MltError::CoordinateOverflow { coordinate, shift } => Some(
            "Coordinate "@ + decimal(coordinate as nat) + " too large for i32 (shift="@
                + decimal(shift as nat) + ")"@,
        ),
        MltError::SubtractOverflow { lhs, rhs } => Some(
            "Subtract overflow: "@ + signed_decimal(lhs as int) + " - "@ + signed_decimal(
                rhs as int,
            ),
        ),
        MltError::UnsupportedTechnique { level, technique } => Some(
            "Unsupported technique at "@ + error_level_name(level) + ": "@ + technique_debug(
                technique,
            ),
        ),
        MltError::Io(_) => None,
        MltError::RleDecode(_) => None,
    }
}

impl MltError {
    /// The error's message. Where the library makes the text itself it is
    /// `error_message`; an outside error gives its own text.
    pub fn message(&self) -> (r: String)
        ensures
            error_message(*self) matches Some(m) ==> r@ == m,
    {
        let mut s = String::new();
        let ghost before = s@;
        match self {
            MltError::PropertyParseError(t) => {
                s.append("Unable to parse property: ");
                s.append(t.as_str());
            },
            MltError::UnsupportedKeyType(t) => {
                s.append("Unsupported key value type: ");
                s.append(t.as_str());
            },
            MltError::UnsupportedGeometryType(t) => {
                s.append("Unsupported geometry type: ");
                s.append(t.as_str());
            },
            MltError::DecodeError(t) => {
                s.append("Failed to decode protobuf: ");
                s.append(t.as_str());
            },
            MltError::MetadataDecodeError(t) => {
                s.append("Failed to decode metadata: ");
                s.append(t.as_str());
            },
            MltError::UnsupportedIntStreamTechnique(t) => {
                s.append("Unsupported technique in decode_int_stream: ");
                let quoted = str_debug(t.as_str());
                s.append(quoted.as_str());
            },
            MltError::PropertyParse { field, at, kind } => {
                s.append("Property parse error: field=");
                s.append(field);
                s.append(" at=");
                push_option_debug(&mut s, *at);
                s.append(" kind=");
                push_property_parse_kind(&mut s, *kind);
            },
            MltError::UnsupportedKeyTypeCode { code } => {
                s.append("Unsupported key type: code=");
                push_decimal(&mut s, *code as u64);
            },
            MltError::UnsupportedGeometryCode { code } => {
                s.append("Unsupported geometry type: code=");
                push_decimal(&mut s, *code as u64);
            },
            MltError::MissingField { field } => {
                s.append("Missing required field `");
                s.append(field);
                s.append("`");
            },
            MltError::InvalidNumeric { field, got } => {
                s.append("Invalid numeric value for `");
                s.append(field);
                s.append("`: got=");
                push_decimal(&mut s, *got);
            },
            MltError::InvalidLength { multiple_of, got } => {
                s.append("Input length must be a multiple of ");
                push_decimal(&mut s, *multiple_of as u64);
                s.append(", got ");
                push_decimal(&mut s, *got as u64);
            },
            MltError::OutOfBounds { index, len } => {
                s.append("Index ");
                push_decimal(&mut s, *index as u64);
                s.append(" is out of bounds for length ");
                push_decimal(&mut s, *len as u64);
            },
            MltError::Varint(k) => {
                s.append("Varint decode error: ");
                push_varint_error(&mut s, *k);
            },
            MltError::Protobuf { offset, kind } => {
                s.append("Protobuf decode error at offset=");
                push_decimal(&mut s, *offset as u64);
                s.append(" kind=");
                push_protobuf_error(&mut s, *kind);
            },
            MltError::MetadataDecode { field, kind } => {
                s.append("Metadata decode error: field=");
                s.append(field);
                s.append(" kind=");
                push_metadata_error_kind(&mut s, *kind);
            },
            MltError::RleOverflow { runs, target } => {
                s.append("Run-length decode would exceed target length: runs=");
                push_decimal(&mut s, *runs as u64);
                s.append(" target=");
                push_decimal(&mut s, *target as u64);
            },
            MltError::FastPforDecode { expected, got } => {
                s.append("FastPFor decode failed: expected=");
                push_decimal(&mut s, *expected as u64);
                s.append(" got=");
                push_decimal(&mut s, *got as u64);
            },
            MltError::CoordinateOverflow { coordinate, shift } => {
                s.append("Coordinate ");
                push_decimal(&mut s, *coordinate as u64);
                s.append(" too large for i32 (shift=");
                push_decimal(&mut s, *shift as u64);
                s.append(")");
            },
            MltError::SubtractOverflow { lhs, rhs } => {
                s.append("Subtract overflow: ");
                push_signed_decimal(&mut s, *lhs);
                s.append(" - ");
                push_signed_decimal(&mut s, *rhs);
            },
            MltError::UnsupportedTechnique { level, technique } => {
                s.append("Unsupported technique at ");
                match level {
                    ErrorLevel::Physical => s.append("Physical"),
                    ErrorLevel::Logical => s.append("Logical"),
                }
                s.append(": ");
                push_technique(&mut s, *technique);
            },
            MltError::Io(e) => {
                s = io_error_text(e);
            },
            MltError::RleDecode(e) => {
                s = columnar_error_text(e);
            },
        }
        proof {
            if let Some(m) = error_message(*self) {
                assert(s@ =~= m);
            }
        }
        s
    }
}

} // verus!
