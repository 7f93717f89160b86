use vstd::prelude::*;

verus! {

/// How the values of a column vector are laid out.
#[derive(Debug, Clone, Copy, PartialEq, Eq, Structural)]
pub enum VectorType {
    Flat,
    Const,
    Sequence,
    Dictionary,
    FsstDictionary,
}

} // verus!
