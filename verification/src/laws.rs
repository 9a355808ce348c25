//! Laws of the instance-buffer addressing scheme, stated over the spec
//! functions that the manager's contracts use and proved once and for all.

use vstd::prelude::*;
use vstd::arithmetic::div_mod::lemma_div_of0;
use crate::RECORD_BYTES;
use crate::grid::TileGrid;
use crate::instances::{
    flat_index, instances_of, lemma_flat_index_bounds, set_tile_spec, written_record,
    InstanceRecord, Instances,
};

verus! {

/// Law: writing a tile and then reading the record at the written cell's
/// flattened index yields exactly the written record (the round trip through
/// the byte-offset arithmetic is lossless).
pub proof fn lemma_write_then_read(
    records: Seq<InstanceRecord>,
    tile_id: i16,
    x: int,
    y: int,
    layer: int,
    w: int,
    h: int,
    lc: int,
)
    requires
        0 <= x < w,
        0 <= y < h,
        0 <= layer < lc,
        lc * (w * h) <= records.len(),
    ensures
        set_tile_spec(records, tile_id, x, y, layer, w, h)[flat_index(x, y, layer, w, h)]
            == written_record(tile_id, x, y),
{
    lemma_flat_index_bounds(x, y, layer, w, h, lc);
}

/// Law: writing the same tile to the same cell twice leaves the record
/// sequence — and so the buffer bytes it lays out — identical to writing it
/// once.
pub proof fn lemma_set_tile_idempotent(
    records: Seq<InstanceRecord>,
    tile_id: i16,
    x: int,
    y: int,
    layer: int,
    w: int,
    h: int,
    lc: int,
)
    requires
        0 <= x < w,
        0 <= y < h,
        0 <= layer < lc,
        lc * (w * h) <= records.len(),
    ensures
        set_tile_spec(set_tile_spec(records, tile_id, x, y, layer, w, h), tile_id, x, y, layer, w, h)
            == set_tile_spec(records, tile_id, x, y, layer, w, h),
{
    lemma_flat_index_bounds(x, y, layer, w, h, lc);
    let once = set_tile_spec(records, tile_id, x, y, layer, w, h);
    let twice = set_tile_spec(once, tile_id, x, y, layer, w, h);
    assert(twice =~= once);
}

/// Law: a single-cell write in one layer leaves every other layer's
/// sub-range of records untouched.
pub proof fn lemma_layer_isolation(
    records: Seq<InstanceRecord>,
    tile_id: i16,
    x: int,
    y: int,
    layer: int,
    w: int,
    h: int,
    lc: int,
    k: int,
)
    requires
        0 <= x < w,
        0 <= y < h,
        0 <= layer < lc,
        lc * (w * h) <= records.len(),
        0 <= k < lc,
        k != layer,
    ensures
        set_tile_spec(records, tile_id, x, y, layer, w, h).subrange(k * (w * h), (k + 1) * (w * h))
            == records.subrange(k * (w * h), (k + 1) * (w * h)),
{
    lemma_flat_index_bounds(x, y, layer, w, h, lc);
    lemma_flat_index_bounds(0, 0, k, w, h, lc);
    let wh = w * h;
    let target = flat_index(x, y, layer, w, h);
    if k < layer {
        assert((k + 1) * wh <= layer * wh) by (nonlinear_arith)
            requires
                k + 1 <= layer,
                0 <= wh,
        ;
    } else {
        assert((layer + 1) * wh <= k * wh) by (nonlinear_arith)
            requires
                layer + 1 <= k,
                0 <= wh,
        ;
    }
    assert(set_tile_spec(records, tile_id, x, y, layer, w, h).subrange(k * wh, (k + 1) * wh)
        =~= records.subrange(k * wh, (k + 1) * wh));
}

/// Law: record i's byte span lies inside layer k's byte sub-range exactly
/// when i is one of layer k's records — the draw sub-range covers exactly
/// the records [k*w*h, (k+1)*w*h) and no others.
pub proof fn lemma_draw_range_covers(k: int, w: int, h: int, i: int)
    requires
        0 <= k,
        0 <= i,
    ensures
        (k * (w * h) * (RECORD_BYTES as int) <= i * (RECORD_BYTES as int)
            && (i + 1) * (RECORD_BYTES as int) <= (k + 1) * (w * h) * (RECORD_BYTES as int))
            <==> (k * (w * h) <= i < (k + 1) * (w * h)),
{
}

/// Law: the byte span that a single-cell write touches lies inside the
/// written cell's own layer's draw sub-range, so it cannot overlap the byte
/// sub-range of any other layer.
pub proof fn lemma_write_span_within_layer(x: int, y: int, layer: int, w: int, h: int, lc: int)
    requires
        0 <= x < w,
        0 <= y < h,
        0 <= layer < lc,
    ensures
        layer * (w * h) * (RECORD_BYTES as int)
            <= flat_index(x, y, layer, w, h) * (RECORD_BYTES as int),
        flat_index(x, y, layer, w, h) * (RECORD_BYTES as int) + (RECORD_BYTES as int)
            <= (layer + 1) * (w * h) * (RECORD_BYTES as int),
{
    lemma_flat_index_bounds(x, y, layer, w, h, lc);
}

/// Law: a grid whose every cell holds tile 7 flattens to records that all
/// carry tile 7 together with their own cell's coordinates.
pub proof fn lemma_uniform_grid(data: Seq<i16>, w: int, h: int)
    requires
        forall|i: int| 0 <= i < data.len() ==> data[i] == 7,
    ensures
        instances_of(data, w, h).len() == data.len(),
        forall|i: int|
            0 <= i < data.len() ==> #[trigger] instances_of(data, w, h)[i] == (InstanceRecord {
                x: (i % w) as usize,
                y: ((i / w) % h) as usize,
                tile_id: 7i32,
            }),
{
}

/// Law: a grid with any zero dimension flattens to a zero-length buffer,
/// and a manager holding that buffer has no layer at all, so no draw call
/// has a valid layer to target.
pub proof fn lemma_empty_grid(grid: TileGrid, m: Instances)
    requires
        grid.wf(),
        grid.width == 0 || grid.height == 0 || grid.layers == 0,
        m.wf(),
        m.map_width == grid.width,
        m.map_height == grid.height,
        m.records@ == instances_of(grid.data@, grid.width as int, grid.height as int),
    ensures
        m.records@.len() == 0,
        m.layer_count_spec() == 0,
{
    let w = grid.width as int;
    let h = grid.height as int;
    let l = grid.layers as int;
    assert(w * h * l == 0) by (nonlinear_arith)
        requires
            w == 0 || h == 0 || l == 0,
    ;
    assert(m.records@.len() == 0);
    if m.wh() != 0 {
        lemma_div_of0(m.wh());
    }
}

} // verus!
