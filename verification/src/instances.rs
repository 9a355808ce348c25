//! The instance grid manager: a dense, per-cell model of the GPU instance
//! buffer, with O(1) single-cell updates and per-layer draw sub-ranges.
//!
//! One fixed-size record per grid cell is kept in flattened
//! row-major-then-layer order: cell `(x, y, layer)` owns the record at index
//! `x + y*w + layer*w*h`, and its bytes start at that index times
//! [`RECORD_BYTES`](crate::RECORD_BYTES). All addressing in the renderer is
//! proved against this single invariant.

use vstd::prelude::*;
use vstd::arithmetic::div_mod::lemma_fundamental_div_mod_converse;
use vstd::pervasive::VecAdditionalExecFns;
use crate::RECORD_BYTES;
use crate::grid::TileGrid;

verus! {

/// One per-cell instance record as the GPU consumes it: the cell's own
/// (x, y) position and the 32-bit tile identifier stored there. The grid
/// coordinates are kept as integers here; rendering widens them to floats
/// (with z always zero, since no depth buffer is used).
#[derive(Clone, Copy, PartialEq, Eq, Debug)]
pub struct InstanceRecord {
    pub x: usize,
    pub y: usize,
    pub tile_id: i32,
}

/// The byte sub-range of the instance buffer that one layer's draw call
/// binds, together with the number of instances it draws.
#[derive(Clone, Copy, PartialEq, Eq, Debug)]
pub struct DrawRange {
    pub start: usize,
    pub end: usize,
    pub instances: usize,
}

/// Flattened index of cell (x, y, layer) in a grid of width w and height h:
/// row-major within a layer, layers stacked one after another.
pub open spec fn flat_index(x: int, y: int, layer: int, w: int, h: int) -> int {
    x + y * w + layer * w * h
}

/// The record that a write of `tile_id` at cell (x, y, _) stores: the cell's
/// own coordinates and the identifier widened to 32 bits.
pub open spec fn written_record(tile_id: i16, x: int, y: int) -> InstanceRecord {
    InstanceRecord { x: x as usize, y: y as usize, tile_id: tile_id as i32 }
}

/// The record that construction derives for flattened index `i`: the cell
/// coordinates recovered as x = i mod w and y = (i div w) mod h, and the
/// cell's identifier widened to 32 bits.
pub open spec fn record_at(i: int, tile: i16, w: int, h: int) -> InstanceRecord {
    InstanceRecord {
        x: (i % w) as usize,
        y: ((i / w) % h) as usize,
        tile_id: tile as i32,
    }
}

/// The full record sequence derived from a grid's flat cell data.
pub open spec fn instances_of(data: Seq<i16>, w: int, h: int) -> Seq<InstanceRecord> {
    Seq::new(data.len(), |i: int| record_at(i, data[i], w, h))
}

/// The record sequence after a single-cell write of `tile_id` at
/// (x, y, layer): exactly the record at the flattened index changes.
pub open spec fn set_tile_spec(
    records: Seq<InstanceRecord>,
    tile_id: i16,
    x: int,
    y: int,
    layer: int,
    w: int,
    h: int,
) -> Seq<InstanceRecord> {
    records.update(flat_index(x, y, layer, w, h), written_record(tile_id, x, y))
}

/// Every record carries the coordinates of the cell its index flattens:
/// the central invariant of the addressing scheme.
pub open spec fn coords_ok(records: Seq<InstanceRecord>, w: int, h: int) -> bool {
    forall|i: int|
        0 <= i < records.len() ==> {
            &&& (#[trigger] records[i]).x == i % w
            &&& records[i].y == (i / w) % h
        }
}

/// Bounds for the flattened index of an in-range cell: it lies within its
/// own layer's record range, every intermediate product is nonnegative, and
/// the whole buffer of `lc` layers contains it.
pub proof fn lemma_flat_index_bounds(x: int, y: int, layer: int, w: int, h: int, lc: int)
    by (nonlinear_arith)
    requires
        0 <= x < w,
        0 <= y < h,
        0 <= layer < lc,
    ensures
        0 < w * h,
        0 <= y * w,
        0 <= layer * w * h,
        layer * (w * h) == layer * w * h,
        (layer + 1) * (w * h) == (layer + 1) * w * h,
        layer * w * h <= x + y * w + layer * w * h,
        x + y * w + layer * w * h < (layer + 1) * w * h,
        (layer + 1) * w * h <= lc * (w * h),
{
}

/// The flattening is invertible: x = i mod w and y = (i div w) mod h recover
/// the cell coordinates that the flattened index was computed from.
pub proof fn lemma_flat_index_coords(x: int, y: int, layer: int, w: int, h: int)
    requires
        0 <= x < w,
        0 <= y < h,
        0 <= layer,
    ensures
        flat_index(x, y, layer, w, h) % w == x,
        (flat_index(x, y, layer, w, h) / w) % h == y,
{
    let q = y + layer * h;
    assert((y + layer * h) * w + x == x + y * w + layer * w * h) by (nonlinear_arith);
    lemma_fundamental_div_mod_converse(flat_index(x, y, layer, w, h), w, q, x);
    lemma_fundamental_div_mod_converse(q, h, layer, y);
}

/// A buffer of exactly `l` whole layers of `wh` records each has `l` as its
/// layer count.
proof fn lemma_layers_of_multiple(l: int, wh: int)
    requires
        wh > 0,
        0 <= l,
    ensures
        (l * wh) / wh == l,
{
    lemma_fundamental_div_mod_converse(l * wh, wh, l, 0);
}

/// The dense instance grid manager. `records` models the GPU instance buffer
/// record by record, in flattened row-major-then-layer order; `map_width`
/// and `map_height` are all the offset math needs, since layer boundaries
/// are multiples of `map_width * map_height`.
#[derive(Debug)]
pub struct Instances {
    pub records: Vec<InstanceRecord>,
    pub map_width: usize,
    pub map_height: usize,
}

impl Instances {
    /// Records per layer.
    pub open spec fn wh(self) -> int {
        self.map_width * self.map_height
    }

    /// How many whole layers the buffer holds. A degenerate grid (any
    /// dimension zero) has no layers at all.
    pub open spec fn layer_count_spec(self) -> int {
        if self.wh() == 0 {
            0
        } else {
            self.records@.len() as int / self.wh()
        }
    }

    /// Well-formedness: the buffer is a whole number of layers, its byte
    /// size is addressable, and every record carries its own cell's
    /// coordinates under the flattening.
    pub open spec fn wf(self) -> bool {
        &&& self.map_width * self.map_height <= usize::MAX
        &&& self.records@.len() * RECORD_BYTES <= usize::MAX
        &&& self.records@.len() == self.layer_count_spec() * self.wh()
        &&& self.records@.len() > 0 ==> (self.map_width > 0 && self.map_height > 0)
        &&& coords_ok(self.records@, self.map_width as int, self.map_height as int)
    }

    /// The coordinates a caller may pass: inside the grid on every axis.
    pub open spec fn in_bounds(self, position: (usize, usize, usize)) -> bool {
        &&& (position.0 as int) < self.map_width
        &&& (position.1 as int) < self.map_height
        &&& (position.2 as int) < self.layer_count_spec()
    }

    /// Flattens the grid into one instance record per cell, in flattened
    /// order: index i holds cell (i mod w, (i div w) mod h) of its layer.
    fn calculate_instances(grid: &TileGrid) -> (r: Vec<InstanceRecord>)
        requires
            grid.wf(),
        ensures
            r@ == instances_of(grid.data@, grid.width as int, grid.height as int),
    {
        let w = grid.width;
        let h = grid.height;
        let n = grid.data.len();
        proof {
            if n > 0 {
                assert(w > 0 && h > 0) by (nonlinear_arith)
                    requires
                        w * h * (grid.layers as int) == n,
                        n > 0,
                ;
            }
        }
        let mut out: Vec<InstanceRecord> = Vec::new();
        let mut i: usize = 0;
        while i < n
            invariant
                i <= n,
                n == grid.data@.len(),
                w == grid.width,
                h == grid.height,
                n > 0 ==> (w > 0 && h > 0),
                out@.len() == i,
                forall|j: int|
                    0 <= j < i ==> #[trigger] out@[j] == record_at(
                        j,
                        grid.data@[j],
                        w as int,
                        h as int,
                    ),
            decreases n - i,
        {
            let x = i % w;
            let y = (i / w) % h;
            let tile = grid.data[i];
            out.push(InstanceRecord { x, y, tile_id: tile as i32 });
            i = i + 1;
        }
        proof {
            assert(out@ =~= instances_of(grid.data@, grid.width as int, grid.height as int));
        }
        out
    }

    /// Builds the manager from a grid: one record per cell, flattened, with
    /// exactly width*height*layers records in all.
    pub fn new(grid: &TileGrid) -> (r: Instances)
        requires
            grid.wf(),
        ensures
            r.wf(),
            r.map_width == grid.width,
            r.map_height == grid.height,
            r.records@ == instances_of(grid.data@, grid.width as int, grid.height as int),
            r.records@.len() == grid.width * grid.height * grid.layers,
            r.layer_count_spec() == (if grid.width * grid.height == 0 {
                0int
            } else {
                grid.layers as int
            }),
    {
        let records = Self::calculate_instances(grid);
        let r = Instances { records, map_width: grid.width, map_height: grid.height };
        proof {
            let w = grid.width as int;
            let h = grid.height as int;
            let l = grid.layers as int;
            let wh = w * h;
            assert(r.records@.len() == wh * l);
            if wh == 0 {
                assert(wh * l == 0) by (nonlinear_arith)
                    requires
                        wh == 0,
                ;
                assert(r.layer_count_spec() * r.wh() == 0) by (nonlinear_arith)
                    requires
                        r.layer_count_spec() == 0,
                ;
            } else {
                lemma_layers_of_multiple(l, wh);
                assert(l * wh == wh * l) by (nonlinear_arith);
                assert((wh * l) / wh == l);
                if r.records@.len() > 0 {
                    assert(w > 0 && h > 0) by (nonlinear_arith)
                        requires
                            wh == w * h,
                            wh * l > 0,
                            0 <= w,
                            0 <= h,
                            0 <= l,
                    ;
                }
            }
            assert forall|i: int| 0 <= i < r.records@.len() implies {
                &&& (#[trigger] r.records@[i]).x == i % w
                &&& r.records@[i].y == (i / w) % h
            } by {
                assert(r.records@[i] == record_at(i, grid.data@[i], w, h));
            }
        }
        r
    }

    /// Rewrites exactly one record in place: the cell's record becomes the
    /// written record and every other record is untouched. Returns the byte
    /// offset at which the record's bytes start in the instance buffer, so
    /// the caller can patch the live GPU buffer with one small write.
    pub fn set_tile(&mut self, tile_id: i16, position: (usize, usize, usize)) -> (offset: usize)
        requires
            old(self).wf(),
            old(self).in_bounds(position),
        ensures
            final(self).wf(),
            final(self).map_width == old(self).map_width,
            final(self).map_height == old(self).map_height,
            final(self).layer_count_spec() == old(self).layer_count_spec(),
            final(self).records@ == set_tile_spec(
                old(self).records@,
                tile_id,
                position.0 as int,
                position.1 as int,
                position.2 as int,
                old(self).map_width as int,
                old(self).map_height as int,
            ),
            offset == flat_index(
                position.0 as int,
                position.1 as int,
                position.2 as int,
                old(self).map_width as int,
                old(self).map_height as int,
            ) * RECORD_BYTES,
    {
        let (x, y, layer) = position;
        proof {
            lemma_flat_index_bounds(
                x as int,
                y as int,
                layer as int,
                self.map_width as int,
                self.map_height as int,
                self.layer_count_spec(),
            );
        }
        let wh = self.map_width * self.map_height;
        let idx = x + y * self.map_width + layer * wh;
        let offset = idx * RECORD_BYTES;
        self.records.set(idx, InstanceRecord { x, y, tile_id: tile_id as i32 });
        proof {
            let w = self.map_width as int;
            let h = self.map_height as int;
            lemma_flat_index_coords(x as int, y as int, layer as int, w, h);
            assert forall|i: int| 0 <= i < self.records@.len() implies {
                &&& (#[trigger] self.records@[i]).x == i % w
                &&& self.records@[i].y == (i / w) % h
            } by {
                if i != idx {
                    assert(self.records@[i] == old(self).records@[i]);
                }
            }
        }
        offset
    }

    /// Reads back the record of one cell from the model of the buffer.
    pub fn get_record(&self, position: (usize, usize, usize)) -> (r: InstanceRecord)
        requires
            self.wf(),
            self.in_bounds(position),
        ensures
            r == self.records@[flat_index(
                position.0 as int,
                position.1 as int,
                position.2 as int,
                self.map_width as int,
                self.map_height as int,
            )],
    {
        let (x, y, layer) = position;
        proof {
            lemma_flat_index_bounds(
                x as int,
                y as int,
                layer as int,
                self.map_width as int,
                self.map_height as int,
                self.layer_count_spec(),
            );
        }
        let wh = self.map_width * self.map_height;
        let idx = x + y * self.map_width + layer * wh;
        self.records[idx]
    }

    /// How many whole layers the buffer holds.
    pub fn layer_count(&self) -> (r: usize)
        requires
            self.wf(),
        ensures
            r == self.layer_count_spec(),
    {
        let wh = self.map_width * self.map_height;
        if wh == 0 {
            0
        } else {
            self.records.len() / wh
        }
    }

    /// Computes the byte sub-range of the instance buffer that a draw of one
    /// layer binds: exactly records [layer*w*h, (layer+1)*w*h), as byte
    /// offsets, with one instance per record of the layer. The range never
    /// reaches past the end of the buffer.
    pub fn draw_range(&self, layer: usize) -> (r: DrawRange)
        requires
            self.wf(),
            (layer as int) < self.layer_count_spec(),
        ensures
            r.start == layer * (self.map_width * self.map_height) * RECORD_BYTES,
            r.end == (layer + 1) * (self.map_width * self.map_height) * RECORD_BYTES,
            r.instances == self.map_width * self.map_height,
            r.end <= self.records@.len() * RECORD_BYTES,
    {
        proof {
            lemma_layer_range(
                layer as int,
                (self.map_width * self.map_height) as int,
                self.layer_count_spec(),
            );
        }
        let wh = self.map_width * self.map_height;
        let start_rec = layer * wh;
        let end_rec = start_rec + wh;
        DrawRange {
            start: start_rec * RECORD_BYTES,
            end: end_rec * RECORD_BYTES,
            instances: wh,
        }
    }
}

/// Multiplying the layer bounds through by the records-per-layer count keeps
/// them ordered, and one more layer starts exactly where the previous ends.
proof fn lemma_layer_range(layer: int, wh: int, lc: int)
    by (nonlinear_arith)
    requires
        0 <= layer < lc,
        0 <= wh,
    ensures
        0 <= layer * wh,
        layer * wh + wh == (layer + 1) * wh,
        (layer + 1) * wh <= lc * wh,
{
}

} // verus!
