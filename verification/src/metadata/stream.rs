use vstd::prelude::*;

use crate::metadata::stream_encoding::{Logical, Physical};

verus! {

/// Parameters of a Morton (Z-order) encoded stream.
#[derive(Debug, Clone, Copy, PartialEq, Eq)]
pub struct Morton {
    pub num_bits: u32,
    pub coordinate_shift: u32,
}

/// Parameters of a run-length encoded stream.
#[derive(Debug, Clone, Copy, PartialEq, Eq)]
pub struct Rle {
    pub runs: u32,
    pub num_rle_values: u32,
}

/// Metadata that precedes every stream of a tile.
#[derive(Debug, Clone, Copy, PartialEq, Eq)]
pub struct StreamMetadata {
    pub logical: Logical,
    pub physical: Physical,
    pub num_values: u32,
    pub byte_length: u32,
    pub morton: Option<Morton>,
    pub rle: Option<Rle>,
}

} // verus!
