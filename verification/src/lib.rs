//! A lazy, fusing tensor compute engine for a GPU compute API.
//!
//! A user builds a directed acyclic graph of deferred tensor operations
//! (elementwise maps, pairwise combinators, reductions, matrix
//! multiplication, layout changes, resizing and slice assignment).  When a
//! result is realized, the resolver traverses the graph, fuses chains of
//! elementwise operations into their producer kernels, generates a compute
//! shader specialized to each tensor's rank, datatype and contiguity, and
//! records the passes to dispatch.

use vstd::prelude::*;

pub mod decimal;
pub mod dispatch;
pub mod element_wise;
pub mod tensor;
pub mod gpu;
pub mod graph;
pub mod laws;
pub mod layout;
pub mod resolve;

verus! {

/// The element datatypes a tensor buffer may hold.
#[derive(Clone, Copy, PartialEq, Eq, Structural, Debug)]
pub enum DataTypeEnum {
    F16,
    F32,
    U32,
    I32,
}

/// Static misuse detected while building the compute graph.
#[derive(Clone, Copy, PartialEq, Eq, Structural, Debug)]
pub enum GraphError {
    /// Operand shapes do not agree as the operation requires.
    ShapeMismatch,
    /// Operand datatypes do not agree.
    DatatypeMismatch,
    /// A reduce axis is not smaller than the input rank.
    AxisOutOfBounds,
    /// A rank outside 1..=3, or a dimension or element count too large to
    /// address with 32-bit indices.
    RankUnsupported,
    /// A slice range does not fit inside the tensor it slices.
    InvalidSlice,
}

} // verus!
