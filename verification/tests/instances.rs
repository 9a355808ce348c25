use tile_instances::grid::TileGrid;
use tile_instances::instances::{InstanceRecord, Instances};
use tile_instances::RECORD_BYTES;

fn manager(w: usize, h: usize, l: usize, fill: i16) -> Instances {
    let grid = TileGrid::new(w, h, l, vec![fill; w * h * l]).unwrap();
    Instances::new(&grid)
}

#[test]
fn record_count_is_product_of_dimensions() {
    assert_eq!(manager(3, 4, 5, 0).records.len(), 60);
    assert_eq!(manager(1, 1, 1, 0).records.len(), 1);
    assert_eq!(manager(7, 1, 3, 0).records.len(), 21);
}

#[test]
fn empty_dimension_gives_empty_buffer_and_no_layers() {
    for (w, h, l) in [(0, 4, 4), (4, 0, 4), (4, 4, 0), (0, 0, 0)] {
        let m = manager(w, h, l, 0);
        assert_eq!(m.records.len(), 0);
        assert_eq!(m.layer_count(), 0);
    }
}

#[test]
fn construction_stores_cell_coordinates_and_tile() {
    let m = manager(3, 2, 2, 7);
    assert_eq!(m.records.len(), 12);
    for (i, rec) in m.records.iter().enumerate() {
        assert_eq!(rec.x, i % 3);
        assert_eq!(rec.y, (i / 3) % 2);
        assert_eq!(rec.tile_id, 7);
    }
}

#[test]
fn set_tile_returns_flattened_byte_offset() {
    let mut m = manager(5, 4, 3, 0);
    assert_eq!(m.set_tile(1, (0, 0, 0)), 0);
    assert_eq!(m.set_tile(1, (2, 3, 1)), (2 + 3 * 5 + 1 * 5 * 4) * RECORD_BYTES);
    assert_eq!(m.set_tile(1, (4, 3, 2)), (4 + 3 * 5 + 2 * 5 * 4) * RECORD_BYTES);
}

#[test]
fn write_then_read_round_trips() {
    let mut m = manager(4, 3, 2, 0);
    m.set_tile(-9, (2, 1, 1));
    let rec = m.get_record((2, 1, 1));
    assert_eq!(rec, InstanceRecord { x: 2, y: 1, tile_id: -9 });
}

#[test]
fn writing_twice_is_byte_identical_to_writing_once() {
    let mut once = manager(4, 3, 2, 3);
    let mut twice = manager(4, 3, 2, 3);
    once.set_tile(11, (1, 2, 0));
    twice.set_tile(11, (1, 2, 0));
    twice.set_tile(11, (1, 2, 0));
    assert_eq!(once.records, twice.records);
}

#[test]
fn set_tile_leaves_other_layers_untouched() {
    let untouched = manager(2, 2, 3, 6);
    let mut m = manager(2, 2, 3, 6);
    m.set_tile(42, (1, 1, 1));
    let wh = 4;
    assert_eq!(m.records[..wh], untouched.records[..wh]);
    assert_eq!(m.records[2 * wh..], untouched.records[2 * wh..]);
    assert_eq!(m.get_record((1, 1, 1)).tile_id, 42);
}

#[test]
fn draw_range_covers_exactly_one_layer() {
    let m = manager(5, 4, 3, 0);
    for layer in 0..3 {
        let r = m.draw_range(layer);
        assert_eq!(r.start, layer * 20 * RECORD_BYTES);
        assert_eq!(r.end, (layer + 1) * 20 * RECORD_BYTES);
        assert_eq!(r.instances, 20);
    }
    assert_eq!(m.draw_range(2).end, m.records.len() * RECORD_BYTES);
}

#[test]
fn editor_scenario_two_by_two_by_two() {
    let mut m = manager(2, 2, 2, 0);
    assert_eq!(m.records.len(), 8);

    let offset = m.set_tile(5, (1, 0, 1));
    assert_eq!(offset, 5 * RECORD_BYTES);
    for (i, rec) in m.records.iter().enumerate() {
        if i == 5 {
            assert_eq!(*rec, InstanceRecord { x: 1, y: 0, tile_id: 5 });
        } else {
            assert_eq!(rec.tile_id, 0);
        }
    }

    let layer1 = m.draw_range(1);
    assert_eq!(layer1.start, 4 * RECORD_BYTES);
    assert_eq!(layer1.end, 8 * RECORD_BYTES);
    assert_eq!(layer1.instances, 4);
    // a draw of this range issues QUAD_VERTICES x 4 vertices/instances
    assert_eq!(tile_instances::QUAD_VERTICES * layer1.instances, 24);

    let layer0 = m.draw_range(0);
    assert_eq!(layer0.start, 0);
    assert_eq!(layer0.end, 4 * RECORD_BYTES);
    assert_eq!(layer0.instances, 4);
    for i in 0..4 {
        assert_eq!(m.records[i].tile_id, 0);
    }
}

#[test]
fn layer_count_matches_grid_depth() {
    assert_eq!(manager(2, 2, 5, 0).layer_count(), 5);
    assert_eq!(manager(1, 1, 1, 0).layer_count(), 1);
}

#[test]
fn negative_tile_ids_are_stored_densely() {
    let m = manager(2, 1, 1, -48);
    assert_eq!(m.records.len(), 2);
    assert_eq!(m.records[0].tile_id, -48);
    assert_eq!(m.records[1].tile_id, -48);
}
