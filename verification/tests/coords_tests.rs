use cubetonic::coords::{compose, BlockCoordinate, VoxelCoordinate, neighbor_dir};

fn roundtrip(x: i16, y: i16, z: i16) {
    let v = VoxelCoordinate { x, y, z };
    let (block, index) = v.split_index();
    let back = compose(&block, index);
    assert_eq!(back, v);
}

#[test]
fn split_compose_roundtrip_origin() {
    roundtrip(0, 0, 0);
}

#[test]
fn split_compose_roundtrip_positive() {
    roundtrip(17, 300, 4095);
}

#[test]
fn split_compose_roundtrip_negative() {
    roundtrip(-1, -16, -17);
}

#[test]
fn split_compose_roundtrip_extremes() {
    roundtrip(i16::MIN, i16::MAX, -12345);
}

#[test]
fn split_index_floors_negative_axes() {
    let v = VoxelCoordinate { x: -1, y: 16, z: 0 };
    let (block, index) = v.split_index();
    assert_eq!(block, BlockCoordinate { x: -1, y: 1, z: 0 });
    // local position is (15, 0, 0): index = 0 * 256 + 0 * 16 + 15
    assert_eq!(index, 15);
}

#[test]
fn split_index_order_is_x_fastest() {
    // local (1, 2, 3) -> 3 * 256 + 2 * 16 + 1
    let v = VoxelCoordinate { x: 1, y: 18, z: 51 };
    let (block, index) = v.split_index();
    assert_eq!(block, BlockCoordinate { x: 0, y: 1, z: 3 });
    assert_eq!(index, 3 * 256 + 2 * 16 + 1);
}

#[test]
fn compose_places_index_in_block() {
    let b = BlockCoordinate { x: -1, y: 0, z: 2 };
    let v = compose(&b, 3 * 256 + 2 * 16 + 1);
    assert_eq!(v, VoxelCoordinate { x: -15, y: 2, z: 35 });
}

#[test]
fn block_coordinate_new_rejects_out_of_range() {
    assert!(BlockCoordinate::new(2048, 0, 0).is_none());
    assert!(BlockCoordinate::new(0, -2049, 0).is_none());
    assert!(BlockCoordinate::new(2047, -2048, 0).is_some());
}

#[test]
fn checked_add_rejects_leaving_range() {
    let b = BlockCoordinate::new(2047, 0, 0).unwrap();
    assert!(b.checked_add((1, 0, 0)).is_none());
    let n = b.checked_add((-1, 0, 0)).unwrap();
    assert_eq!(n, BlockCoordinate { x: 2046, y: 0, z: 0 });
}

#[test]
fn neighbor_dirs_order() {
    assert_eq!(neighbor_dir(0), (0, 1, 0));
    assert_eq!(neighbor_dir(1), (0, -1, 0));
    assert_eq!(neighbor_dir(2), (1, 0, 0));
    assert_eq!(neighbor_dir(3), (-1, 0, 0));
    assert_eq!(neighbor_dir(4), (0, 0, 1));
    assert_eq!(neighbor_dir(5), (0, 0, -1));
}
