use cubetonic::block::{MapBlockNodes, MapNode, CONTENT_AIR};
use cubetonic::coords::BlockCoordinate;
use cubetonic::map::{LuantiMap, MeshgenMapData};
use cubetonic::meshgen::{generate_mesh, MeshgenTask, MeshgenWork};
use cubetonic::node_def::{DrawType, NodeDef, NodeDefManager};

fn node(content_id: u16) -> MapNode {
    MapNode { content_id, param1: 0, param2: 0 }
}

fn defs_with_solid(content_id: u16, tile: u32) -> NodeDefManager {
    NodeDefManager::from_network(
        vec![(content_id, NodeDef { drawtype: DrawType::Normal, tiles: [tile; 6] })],
        0,
    )
}

#[test]
fn empty_fast_path_skips_snapshot() {
    let mut map = LuantiMap::new();
    let c = BlockCoordinate { x: 0, y: 0, z: 0 };
    map.insert_block(c, MapBlockNodes::filled(node(CONTENT_AIR)));
    let block = map.get_block(&c).unwrap();
    let task = MeshgenTask::new(&map, c, block, 5);
    assert!(matches!(task.work, MeshgenWork::Empty));
    let defs = defs_with_solid(1, 0);
    let result = task.generate(&defs);
    assert_eq!(result.num_indices, 0);
    assert!(result.mesh.is_none());
    assert_eq!(result.blockpos, c);
    assert_eq!(result.timestamp_task_spawned, 5);
}

#[test]
fn empty_fast_path_equivalence() {
    // The full algorithm on an all-air block reports the same observable
    // result as the fast path: zero indices, no mesh data.
    let mut map = LuantiMap::new();
    let c = BlockCoordinate { x: 0, y: 0, z: 0 };
    map.insert_block(c, MapBlockNodes::filled(node(CONTENT_AIR)));
    let block = map.get_block(&c).unwrap();
    let defs = defs_with_solid(1, 0);

    // Fast path.
    let fast = MeshgenTask::new(&map, c, block, 9).generate(&defs);

    // Full algorithm on the same input, forced through a snapshot.
    let snap = MeshgenMapData::new(&map, c, block);
    let full = MeshgenTask {
        blockpos: c,
        timestamp_task_spawned: 9,
        work: MeshgenWork::Generate(snap),
    }
    .generate(&defs);

    assert_eq!(fast.num_indices, full.num_indices);
    assert_eq!(fast.num_indices, 0);
    assert!(fast.mesh.is_none());
    assert!(full.mesh.is_none());
    assert_eq!(fast.blockpos, full.blockpos);
    assert_eq!(fast.timestamp_task_spawned, full.timestamp_task_spawned);
}

#[test]
fn fully_solid_block_without_neighbors_is_late_empty() {
    // Every face is either interior (occluded) or borders a missing
    // neighbor (suppressed): a non-empty block with an empty mesh.
    let mut map = LuantiMap::new();
    let c = BlockCoordinate { x: 0, y: 0, z: 0 };
    map.insert_block(c, MapBlockNodes::filled(node(1)));
    let block = map.get_block(&c).unwrap();
    let task = MeshgenTask::new(&map, c, block, 1);
    assert!(matches!(task.work, MeshgenWork::Generate(_)));
    let defs = defs_with_solid(1, 0);
    let result = task.generate(&defs);
    assert_eq!(result.num_indices, 0);
    assert!(result.mesh.is_none());
}

#[test]
fn corner_scenario_emits_exactly_the_inner_faces() {
    // A 2x2x2 corner of solid voxels at the block's origin corner, all else
    // vacuum, no neighbor blocks present. Expected: the three 2x2 sides
    // facing +X, +Y, +Z (12 quads); faces toward the missing -X/-Y/-Z
    // neighbors are suppressed, and solid/solid contacts emit nothing.
    let mut block = MapBlockNodes::filled(node(CONTENT_AIR));
    for z in 0..2usize {
        for y in 0..2usize {
            for x in 0..2usize {
                block.set(z * 256 + y * 16 + x, node(1));
            }
        }
    }
    let mut map = LuantiMap::new();
    let c = BlockCoordinate { x: 0, y: 0, z: 0 };
    map.insert_block(c, block);
    let block = map.get_block(&c).unwrap();
    let snap = MeshgenMapData::new(&map, c, block);
    let defs = defs_with_solid(1, 3);
    let mesh = generate_mesh(&snap, &defs);

    assert_eq!(mesh.faces.len(), 12);
    assert_eq!(mesh.indices.len(), 72);
    for face in &mesh.faces {
        // Faces only point toward +Y (0), +X (2) or +Z (4).
        assert!(face.face == 0 || face.face == 2 || face.face == 4);
        // Each emitted face sits on the outer shell of the 2x2x2 corner.
        match face.face {
            0 => assert_eq!(face.y, 1),
            2 => assert_eq!(face.x, 1),
            _ => assert_eq!(face.z, 1),
        }
        assert!(face.x <= 1 && face.y <= 1 && face.z <= 1);
        assert_eq!(face.texture_index, 3);
    }
    // Exactly four quads per direction.
    let plus_y = mesh.faces.iter().filter(|f| f.face == 0).count();
    let plus_x = mesh.faces.iter().filter(|f| f.face == 2).count();
    let plus_z = mesh.faces.iter().filter(|f| f.face == 4).count();
    assert_eq!((plus_y, plus_x, plus_z), (4, 4, 4));
}

#[test]
fn quad_indices_follow_fixed_pattern() {
    // One lone solid voxel in the block's interior with an air block above:
    // nothing is emitted except where air is known.
    let mut block = MapBlockNodes::filled(node(CONTENT_AIR));
    block.set(8 * 256 + 8 * 16 + 8, node(1));
    let mut map = LuantiMap::new();
    let c = BlockCoordinate { x: 0, y: 0, z: 0 };
    map.insert_block(c, block);
    let block = map.get_block(&c).unwrap();
    let snap = MeshgenMapData::new(&map, c, block);
    let defs = defs_with_solid(1, 0);
    let mesh = generate_mesh(&snap, &defs);
    // All six neighbors of the voxel are air inside the same block.
    assert_eq!(mesh.faces.len(), 6);
    // The index list applies 0,1,2,2,3,0 per quad.
    for q in 0..6u32 {
        let base = 4 * q;
        let expect = [base, base + 1, base + 2, base + 2, base + 3, base];
        assert_eq!(&mesh.indices[(6 * q as usize)..(6 * q as usize + 6)], &expect[..]);
    }
}

#[test]
fn unknown_content_renders_as_solid_unknown() {
    // Content the server never defined falls back to the unknown definition:
    // a solid cube with the designated unknown texture.
    let mut block = MapBlockNodes::filled(node(CONTENT_AIR));
    block.set(0, node(500));
    let mut map = LuantiMap::new();
    let c = BlockCoordinate { x: 0, y: 0, z: 0 };
    map.insert_block(c, block);
    let block = map.get_block(&c).unwrap();
    let snap = MeshgenMapData::new(&map, c, block);
    let defs = NodeDefManager::from_network(vec![], 77);
    let mesh = generate_mesh(&snap, &defs);
    // Corner voxel: faces toward -X/-Y/-Z are suppressed (missing
    // neighbors); +X/+Y/+Z face air.
    assert_eq!(mesh.faces.len(), 3);
    for face in &mesh.faces {
        assert_eq!(face.texture_index, 77);
    }
}

#[test]
fn node_def_lookup_and_fallback() {
    let defs = defs_with_solid(1, 4);
    assert_eq!(defs.get(1).unwrap().tiles, [4; 6]);
    assert!(defs.get(2).is_none());
    // Fallback resolves to the unknown definition.
    let fb = defs.get_with_fallback(2);
    assert_eq!(fb.drawtype, DrawType::Normal);
    assert_eq!(fb.tiles, [0; 6]);
    // Air and ignore are built in and airlike.
    assert_eq!(defs.get(CONTENT_AIR).unwrap().drawtype, DrawType::AirLike);
    assert_eq!(defs.get(127).unwrap().drawtype, DrawType::AirLike);
    assert_eq!(defs.get(125).unwrap().drawtype, DrawType::Normal);
}

#[test]
fn non_cuboid_neighbor_occludes() {
    // A resolvable neighbor whose draw type is not airlike counts as a solid
    // cuboid for culling purposes: no quad is emitted toward it, whatever its
    // refined shape would be.
    let mut block = MapBlockNodes::filled(node(CONTENT_AIR));
    // A solid node with a liquid node one step in +X.
    block.set(8 * 256 + 8 * 16 + 8, node(1));
    block.set(8 * 256 + 8 * 16 + 9, node(2));
    let mut map = LuantiMap::new();
    let c = BlockCoordinate { x: 0, y: 0, z: 0 };
    map.insert_block(c, block);
    let block = map.get_block(&c).unwrap();
    let snap = MeshgenMapData::new(&map, c, block);
    let defs = NodeDefManager::from_network(
        vec![
            (1, NodeDef { drawtype: DrawType::Normal, tiles: [0; 6] }),
            (2, NodeDef { drawtype: DrawType::Liquid, tiles: [0; 6] }),
        ],
        0,
    );
    let mesh = generate_mesh(&snap, &defs);
    // The solid node shows 5 faces (its +X face is occluded by the liquid);
    // the liquid node itself shows its 5 air-facing faces.
    assert!(mesh.faces.iter().all(|f| !(f.x == 8 && f.y == 8 && f.z == 8 && f.face == 2)));
    let solid_faces = mesh.faces.iter().filter(|f| f.x == 8 && f.y == 8 && f.z == 8).count();
    let liquid_faces = mesh.faces.iter().filter(|f| f.x == 9 && f.y == 8 && f.z == 8).count();
    assert_eq!(solid_faces, 5);
    assert_eq!(liquid_faces, 5);
}
