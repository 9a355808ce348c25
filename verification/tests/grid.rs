use tile_instances::grid::TileGrid;

#[test]
fn accepts_matching_dimensions() {
    let g = TileGrid::new(3, 4, 5, vec![0i16; 60]).unwrap();
    assert_eq!(g.width, 3);
    assert_eq!(g.height, 4);
    assert_eq!(g.layers, 5);
    assert_eq!(g.data.len(), 60);
}

#[test]
fn accepts_degenerate_dimensions() {
    assert!(TileGrid::new(0, 4, 4, Vec::new()).is_some());
    assert!(TileGrid::new(4, 0, 4, Vec::new()).is_some());
    assert!(TileGrid::new(4, 4, 0, Vec::new()).is_some());
    assert!(TileGrid::new(0, 0, 0, Vec::new()).is_some());
}

#[test]
fn rejects_mismatched_data_length() {
    assert!(TileGrid::new(2, 2, 2, vec![0i16; 7]).is_none());
    assert!(TileGrid::new(2, 2, 2, vec![0i16; 9]).is_none());
    assert!(TileGrid::new(0, 2, 2, vec![0i16; 1]).is_none());
}

#[test]
fn rejects_unaddressable_dimensions() {
    assert!(TileGrid::new(usize::MAX, 2, 1, Vec::new()).is_none());
    assert!(TileGrid::new(usize::MAX, 1, usize::MAX, Vec::new()).is_none());
}
