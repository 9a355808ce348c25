//! The tile grid handed in by the editor layer: a dense three-dimensional
//! array of signed tile identifiers, stored flattened in row-major-then-layer
//! order.

use vstd::prelude::*;
use crate::RECORD_BYTES;

verus! {

/// A dense grid of tile identifiers with dimensions (width, height, layers).
/// `data` holds one identifier per cell, flattened so that cell
/// `(x, y, layer)` sits at index `x + y*width + layer*width*height`.
pub struct TileGrid {
    pub width: usize,
    pub height: usize,
    pub layers: usize,
    pub data: Vec<i16>,
}

impl TileGrid {
    /// The grid is well formed when the flat data covers exactly
    /// width*height*layers cells and the derived instance buffer fits in
    /// addressable memory.
    pub open spec fn wf(self) -> bool {
        &&& self.width * self.height <= usize::MAX
        &&& self.data@.len() == self.width * self.height * self.layers
        &&& self.data@.len() * RECORD_BYTES <= usize::MAX
    }

    /// Builds a grid from its dimensions and flat cell data, rejecting a
    /// mismatch between the dimensions and the data length, and dimensions
    /// whose instance buffer could not be addressed in bytes.
    pub fn new(width: usize, height: usize, layers: usize, data: Vec<i16>) -> (r: Option<TileGrid>)
        ensures
            r matches Some(g) ==> {
                &&& g.wf()
                &&& g.width == width
                &&& g.height == height
                &&& g.layers == layers
                &&& g.data@ == data@
            },
            r is Some <==> {
                &&& width * height <= usize::MAX
                &&& width * height * layers == data@.len()
                &&& data@.len() * RECORD_BYTES <= usize::MAX
            },
    {
        let n = data.len();
        let wh = match width.checked_mul(height) {
            Some(p) => p,
            None => {
                return None;
            },
        };
        let cells = match wh.checked_mul(layers) {
            Some(p) => p,
            None => {
                return None;
            },
        };
        if cells != n {
            return None;
        }
        if n.checked_mul(RECORD_BYTES).is_none() {
            return None;
        }
        Some(TileGrid { width, height, layers, data })
    }
}

} // verus!
