use vstd::prelude::*;

verus! {

/// Byte-level (physical) compression technique of a stream.
#[derive(Debug, Clone, Copy, PartialEq, Eq, Structural)]
pub enum PhysicalLevelTechnique {
    Plain,
    FastPfor,
    Varint,
    Alp,
}

/// Conceptual (logical) encoding technique of a stream.
#[derive(Debug, Clone, Copy, PartialEq, Eq, Structural)]
pub enum LogicalLevelTechnique {
    Plain,
    Delta,
    ComponentwiseDelta,
    Rle,
    Morton,
    PseudoDecimal,
}

/// What a physical stream holds.
#[derive(Debug, Clone, Copy, PartialEq, Eq, Structural)]
pub enum PhysicalStreamType {
    Present,
    Data,
    Offset,
    Length,
}

#[derive(Debug, Clone, Copy, PartialEq, Eq, Structural)]
pub enum DictionaryType {
    NoDictionary,
    Single,
    Shared,
    Vertex,
    Morton,
    Fsst,
}

#[derive(Debug, Clone, Copy, PartialEq, Eq, Structural)]
pub enum OffsetType {
    Vertex,
    Index,
    String,
    Key,
}

#[derive(Debug, Clone, Copy, PartialEq, Eq, Structural)]
pub enum LengthType {
    VarBinary,
    Geometries,
    Parts,
    Rings,
    Triangles,
    Symbol,
    Dictionary,
}

/// The logical meaning of a stream.
#[derive(Debug, Clone, Copy, PartialEq, Eq, Structural)]
pub enum LogicalStreamType {
    Dictionary(Option<DictionaryType>),
    Offset(OffsetType),
    Length(LengthType),
}

/// Logical part of a stream's metadata.
#[derive(Debug, Clone, Copy, PartialEq, Eq)]
pub struct Logical {
    pub stream_type: Option<LogicalStreamType>,
    pub technique1: Option<LogicalLevelTechnique>,
    pub technique2: Option<LogicalLevelTechnique>,
}

impl Logical {
    pub fn new(
        stream_type: Option<LogicalStreamType>,
        technique1: LogicalLevelTechnique,
        technique2: LogicalLevelTechnique,
    ) -> (r: Self)
        ensures
            r.stream_type == stream_type,
            r.technique1 == Some(technique1),
            r.technique2 == Some(technique2),
    {
        Logical { stream_type, technique1: Some(technique1), technique2: Some(technique2) }
    }
}

/// Physical part of a stream's metadata.
#[derive(Debug, Clone, Copy, PartialEq, Eq)]
pub struct Physical {
    pub stream_type: PhysicalStreamType,
    pub technique: PhysicalLevelTechnique,
}

impl Physical {
    pub fn new(stream_type: PhysicalStreamType, technique: PhysicalLevelTechnique) -> (r: Self)
        ensures
            r.stream_type == stream_type,
            r.technique == technique,
    {
        Physical { stream_type, technique }
    }
}

} // verus!

verus! {

/// The name of a physical technique as it shows in messages.
pub open spec fn physical_technique_name(t: PhysicalLevelTechnique) -> Seq<char> {
    match t {
        PhysicalLevelTechnique::Plain => "None"@,
        PhysicalLevelTechnique::FastPfor => "FastPfor"@,
        PhysicalLevelTechnique::Varint => "Varint"@,
        PhysicalLevelTechnique::Alp => "Alp"@,
    }
}

impl PhysicalLevelTechnique {
    /// The technique's name, as it shows in messages.
    pub fn name(&self) -> (r: String)
        ensures
            r@ == physical_technique_name(*self),
    {
        match self {
            PhysicalLevelTechnique::Plain => "None".to_owned(),
            PhysicalLevelTechnique::FastPfor => "FastPfor".to_owned(),
            PhysicalLevelTechnique::Varint => "Varint".to_owned(),
            PhysicalLevelTechnique::Alp => "Alp".to_owned(),
        }
    }
}

} // verus!
