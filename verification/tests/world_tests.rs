use cubetonic::block::{MapBlockNodes, MapNode, CONTENT_AIR};
use cubetonic::coords::{BlockCoordinate, VoxelCoordinate};
use cubetonic::map::{LuantiMap, MeshgenMapData};

fn node(content_id: u16) -> MapNode {
    MapNode { content_id, param1: 0, param2: 0 }
}

fn air_block() -> MapBlockNodes {
    MapBlockNodes::filled(node(CONTENT_AIR))
}

fn solid_block(content_id: u16) -> MapBlockNodes {
    MapBlockNodes::filled(node(content_id))
}

#[test]
fn insert_and_get_block() {
    let mut map = LuantiMap::new();
    let c = BlockCoordinate { x: 1, y: 2, z: 3 };
    assert!(map.get_block(&c).is_none());
    map.insert_block(c, solid_block(7));
    let got = map.get_block(&c).unwrap();
    assert_eq!(got.get(0).content_id, 7);
    assert_eq!(map.block_count(), 1);
    // upsert replaces
    map.insert_block(c, solid_block(9));
    assert_eq!(map.get_block(&c).unwrap().get(4095).content_id, 9);
    assert_eq!(map.block_count(), 1);
}

#[test]
fn set_node_mutates_present_block() {
    let mut map = LuantiMap::new();
    let c = BlockCoordinate { x: 0, y: 0, z: 0 };
    map.insert_block(c, air_block());
    let pos = VoxelCoordinate { x: 5, y: 6, z: 7 };
    let touched = map.set_node(&pos, node(42));
    assert_eq!(touched, Some(c));
    let block = map.get_block(&c).unwrap();
    assert_eq!(block.get(7 * 256 + 6 * 16 + 5).content_id, 42);
}

#[test]
fn set_node_on_absent_block_is_noop() {
    let mut map = LuantiMap::new();
    map.insert_block(BlockCoordinate { x: 1, y: 0, z: 0 }, air_block());
    let count_before = map.block_count();
    // (-1, 0, 0) lives in block (-1, 0, 0), which is absent
    let touched = map.set_node(&VoxelCoordinate { x: -1, y: 0, z: 0 }, node(1));
    assert!(touched.is_none());
    assert_eq!(map.block_count(), count_before);
    // the present block is untouched
    let block = map.get_block(&BlockCoordinate { x: 1, y: 0, z: 0 }).unwrap();
    assert_eq!(block.get(0).content_id, CONTENT_AIR);
}

#[test]
fn block_nodes_new_rejects_wrong_length() {
    assert!(MapBlockNodes::new(vec![node(0); 4095]).is_none());
    assert!(MapBlockNodes::new(vec![node(0); 4096]).is_some());
}

#[test]
fn snapshot_locality() {
    // Blocks at C, C+X, C-Y only.
    let c = BlockCoordinate { x: 10, y: 20, z: 30 };
    let mut map = LuantiMap::new();
    map.insert_block(c, solid_block(1));
    map.insert_block(BlockCoordinate { x: 11, y: 20, z: 30 }, solid_block(2));
    map.insert_block(BlockCoordinate { x: 10, y: 19, z: 30 }, solid_block(3));

    let center = map.get_block(&c).unwrap();
    let snap = MeshgenMapData::new(&map, c, center);
    assert_eq!(snap.get_blockpos(), c);

    // Inside the center block.
    let got = snap.get_node(VoxelCoordinate { x: 0, y: 0, z: 0 }).unwrap();
    assert_eq!(got.content_id, 1);
    let got = snap.get_node(VoxelCoordinate { x: 15, y: 15, z: 15 }).unwrap();
    assert_eq!(got.content_id, 1);

    // One step into +X resolves to the +X neighbor.
    let got = snap.get_node(VoxelCoordinate { x: 16, y: 0, z: 0 }).unwrap();
    assert_eq!(got.content_id, 2);

    // One step into -Y resolves to the -Y neighbor.
    let got = snap.get_node(VoxelCoordinate { x: 0, y: -1, z: 0 }).unwrap();
    assert_eq!(got.content_id, 3);

    // One step into +Y, -X, +Z, -Z is unresolvable: those blocks are absent.
    assert!(snap.get_node(VoxelCoordinate { x: 0, y: 16, z: 0 }).is_none());
    assert!(snap.get_node(VoxelCoordinate { x: -1, y: 0, z: 0 }).is_none());
    assert!(snap.get_node(VoxelCoordinate { x: 0, y: 0, z: 16 }).is_none());
    assert!(snap.get_node(VoxelCoordinate { x: 0, y: 0, z: -1 }).is_none());
}

#[test]
fn snapshot_is_a_copy() {
    // The snapshot reflects the map at build time, not later mutations.
    let c = BlockCoordinate { x: 0, y: 0, z: 0 };
    let mut map = LuantiMap::new();
    map.insert_block(c, solid_block(1));
    let snap = {
        let center = map.get_block(&c).unwrap();
        MeshgenMapData::new(&map, c, center)
    };
    map.set_node(&VoxelCoordinate { x: 0, y: 0, z: 0 }, node(99));
    let got = snap.get_node(VoxelCoordinate { x: 0, y: 0, z: 0 }).unwrap();
    assert_eq!(got.content_id, 1);
}

#[test]
fn snapshot_two_blocks_away_is_unresolvable() {
    let c = BlockCoordinate { x: 0, y: 0, z: 0 };
    let mut map = LuantiMap::new();
    map.insert_block(c, solid_block(1));
    map.insert_block(BlockCoordinate { x: 2, y: 0, z: 0 }, solid_block(2));
    let center = map.get_block(&c).unwrap();
    let snap = MeshgenMapData::new(&map, c, center);
    // (32, 0, 0) lies two blocks over: outside the snapshot's region.
    assert!(snap.get_node(VoxelCoordinate { x: 32, y: 0, z: 0 }).is_none());
}

#[test]
fn is_all_air_scan() {
    let mut block = air_block();
    assert!(block.is_all_air());
    block.set(100, node(1));
    assert!(!block.is_all_air());
}
