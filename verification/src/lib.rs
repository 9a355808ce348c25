//! Dense instance-buffer management for a tile-based map renderer.
//!
//! A three-dimensional grid of tile identifiers (width x height x layers) is
//! flattened into a contiguous sequence of fixed-size instance records, one
//! per cell, in row-major-then-layer order. The library proves the addressing
//! scheme that the whole design depends on: the record at flattened index
//! `i = x + y*width + layer*width*height` always corresponds to grid cell
//! `(x, y, layer)`, single-cell updates touch exactly one record, and each
//! layer's draw call covers exactly its own contiguous sub-range of records.

use vstd::prelude::*;

pub mod grid;
pub mod instances;
pub mod laws;

verus! {

/// Size in bytes of one instance record as laid out for the GPU: a
/// three-component 32-bit float position followed by a 32-bit tile id,
/// tightly packed with no padding.
pub const RECORD_BYTES: usize = 16;

/// Vertices per drawn tile: two triangles forming the shared quad. Every
/// layer draw issues this many vertices for each of its instances.
pub const QUAD_VERTICES: usize = 6;

} // verus!
