use vstd::prelude::*;
use vstd::arithmetic::div_mod::lemma_fundamental_div_mod_converse;
use crate::coords::{BlockCoordinate, VoxelCoordinate, spec_neighbor_dir, neighbor_dir,
    NODES_PER_BLOCK};
use crate::block::{MapNode, MapBlockNodes, CONTENT_AIR};
use crate::map::{LuantiMap, MeshgenMapData, spec_block_neighbor};
use crate::node_def::{NodeDefManager, NodeDef, DrawType, spec_def_of};

verus! {

/// One emitted quad: a face of the cuboid of the node at local position
/// `(x, y, z)` of the mapblock, with `face` numbering the side in neighbor
/// offset order and `texture_index` naming the texture the renderer applies.
/// Each quad expands to 4 vertices, placed by the renderer's fixed corner
/// table, and 6 indices (2 triangles).
#[derive(Clone, Copy, PartialEq, Eq, Structural, Debug)]
pub struct MeshFace {
    pub x: i16,
    pub y: i16,
    pub z: i16,
    pub face: u8,
    pub texture_index: u32,
}

/// The CPU-side representation of a mapblock mesh: the emitted quads and the
/// triangle index list over their vertices (4 vertices per quad, in quad
/// order), with the engine's fixed clockwise winding.
#[derive(Debug)]
pub struct Mesh {
    pub faces: Vec<MeshFace>,
    pub indices: Vec<u32>,
}

/// Index `k` of the two triangles of quad `q`, following the engine's
/// fixed quad index pattern 0, 1, 2, 2, 3, 0 over the quad's 4 vertices.
pub open spec fn spec_quad_index(q: int, k: int) -> int {
    4 * q + if k == 0 {
        0int
    } else if k == 1 {
        1
    } else if k == 2 {
        2
    } else if k == 3 {
        2
    } else if k == 4 {
        3
    } else {
        0
    }
}

/// The index list is exactly the quad index pattern applied to each face.
pub open spec fn indices_ok(indices: Seq<u32>, nfaces: int) -> bool {
    &&& indices.len() == 6 * nfaces
    &&& forall|q: int, k: int|
        0 <= q < nfaces && 0 <= k < 6 ==> #[trigger] indices[6 * q + k] == spec_quad_index(q, k)
}

impl Mesh {
    pub open spec fn wf(self) -> bool {
        indices_ok(self.indices@, self.faces@.len() as int)
    }
}

/// The local x offset of the node at array index `i`.
pub open spec fn idx_x(i: int) -> int {
    i % 16
}

/// The local y offset of the node at array index `i`.
pub open spec fn idx_y(i: int) -> int {
    (i / 16) % 16
}

/// The local z offset of the node at array index `i`.
pub open spec fn idx_z(i: int) -> int {
    i / 256
}

/// The position probed when culling face `face` of the node at index `i`:
/// one step from the node's local position, relative to the center mapblock.
pub open spec fn spec_probe_pos(i: int, face: int) -> VoxelCoordinate {
    let d = spec_neighbor_dir(face);
    VoxelCoordinate {
        x: (idx_x(i) + d.0) as i16,
        y: (idx_y(i) + d.1) as i16,
        z: (idx_z(i) + d.2) as i16,
    }
}

/// Whether face `face` of the node at index `i` is emitted: the node itself
/// produces geometry (not airlike), the probed neighbor node is inside the
/// snapshot's coverage, and that neighbor is classified empty (airlike).
/// Every other draw type counts as a solid cuboid for culling purposes and
/// occludes the face. A probe outside the coverage suppresses the face: the
/// mesh is regenerated once the missing neighbor mapblock arrives.
pub open spec fn spec_face_emitted(
    data: MeshgenMapData,
    defs: Map<u16, NodeDef>,
    i: int,
    face: int,
) -> bool {
    let def = spec_def_of(defs, data.spec_center()[i].content_id);
    &&& def.drawtype != DrawType::AirLike
    &&& match data.spec_get_node(spec_probe_pos(i, face)) {
        Some(n) => spec_def_of(defs, n.content_id).drawtype == DrawType::AirLike,
        None => false,
    }
}

/// The quad emitted for face `face` of the node at index `i`.
pub open spec fn spec_face_for(
    data: MeshgenMapData,
    defs: Map<u16, NodeDef>,
    i: int,
    face: int,
) -> MeshFace {
    MeshFace {
        x: idx_x(i) as i16,
        y: idx_y(i) as i16,
        z: idx_z(i) as i16,
        face: face as u8,
        texture_index: spec_def_of(defs, data.spec_center()[i].content_id).tiles@[face],
    }
}

/// The quads emitted by the first `n` of the 4096 * 6 node/face steps, in
/// generation order: nodes by ascending array index, faces in neighbor offset
/// order within a node.
pub open spec fn spec_faces_upto(data: MeshgenMapData, defs: Map<u16, NodeDef>, n: int) -> Seq<
    MeshFace,
>
    decreases n,
{
    if n <= 0 {
        Seq::empty()
    } else {
        let prev = spec_faces_upto(data, defs, n - 1);
        let i = (n - 1) / 6;
        let f = (n - 1) % 6;
        if spec_face_emitted(data, defs, i, f) {
            prev.push(spec_face_for(data, defs, i, f))
        } else {
            prev
        }
    }
}

/// All quads the algorithm emits for a snapshot.
pub open spec fn spec_faces(data: MeshgenMapData, defs: Map<u16, NodeDef>) -> Seq<MeshFace> {
    spec_faces_upto(data, defs, 4096int * 6)
}

/// Step number `6 * i + t` handles face `t` of node `i`.
proof fn lemma_step_decompose(i: int, t: int)
    requires
        0 <= t < 6,
    ensures
        (6 * i + t) / 6 == i,
        (6 * i + t) % 6 == t,
{
    lemma_fundamental_div_mod_converse(6 * i + t, 6, i, t);
}

/// At most one quad is emitted per step.
proof fn lemma_faces_upto_len(data: MeshgenMapData, defs: Map<u16, NodeDef>, n: int)
    ensures
        spec_faces_upto(data, defs, n).len() <= if n <= 0 {
            0
        } else {
            n
        },
    decreases n,
{
    if n > 0 {
        lemma_faces_upto_len(data, defs, n - 1);
    }
}

/// An airlike node emits nothing: its six steps leave the quad list unchanged.
proof fn lemma_faces_upto_skip_node(
    data: MeshgenMapData,
    defs: Map<u16, NodeDef>,
    i: int,
    t: int,
)
    requires
        0 <= i < 4096,
        0 <= t <= 6,
        spec_def_of(defs, data.spec_center()[i].content_id).drawtype == DrawType::AirLike,
    ensures
        spec_faces_upto(data, defs, 6 * i + t) == spec_faces_upto(data, defs, 6 * i),
    decreases t,
{
    if t > 0 {
        lemma_faces_upto_skip_node(data, defs, i, t - 1);
        lemma_step_decompose(i, t - 1);
        assert(!spec_face_emitted(data, defs, i, t - 1));
    }
}

/// Appends the quad and its 6 triangle indices to the mesh.
fn push_quad(mesh: &mut Mesh, face: MeshFace)
    requires
        old(mesh).wf(),
        old(mesh).faces@.len() < 24576,
    ensures
        final(mesh).wf(),
        final(mesh).faces@ == old(mesh).faces@.push(face),
{
    let q = mesh.faces.len();
    let base: u32 = (4 * q) as u32;
    mesh.faces.push(face);
    mesh.indices.push(base);
    mesh.indices.push(base + 1);
    mesh.indices.push(base + 2);
    mesh.indices.push(base + 2);
    mesh.indices.push(base + 3);
    mesh.indices.push(base);
    proof {
        let qi = q as int;
        assert forall|q2: int, k: int| 0 <= q2 < qi + 1 && 0 <= k < 6 implies #[trigger] mesh
            .indices@[6 * q2 + k] == spec_quad_index(q2, k) by {
            if q2 < qi {
                assert(old(mesh).indices@[6 * q2 + k] == spec_quad_index(q2, k));
                assert(0 <= 6 * q2 + k < 6 * qi) by (nonlinear_arith)
                    requires
                        0 <= q2 < qi,
                        0 <= k < 6,
                ;
                assert(mesh.indices@[6 * q2 + k] == old(mesh).indices@[6 * q2 + k]);
            } else {
                assert(mesh.indices@[6 * qi + 0] == base);
                assert(mesh.indices@[6 * qi + 1] == base + 1);
                assert(mesh.indices@[6 * qi + 2] == base + 2);
                assert(mesh.indices@[6 * qi + 3] == base + 2);
                assert(mesh.indices@[6 * qi + 4] == base + 3);
                assert(mesh.indices@[6 * qi + 5] == base);
            }
        }
    }
}

/// Generates the mesh for one node of the mapblock: for each of its 6 faces,
/// emits a quad exactly when the face-culling rule says so.
fn generate_single(
    data: &MeshgenMapData,
    node_def: &NodeDefManager,
    mesh: &mut Mesh,
    i: usize,
    node: MapNode,
)
    requires
        data.wf(),
        node_def.wf(),
        i < NODES_PER_BLOCK,
        node == data.spec_center()[i as int],
        old(mesh).wf(),
        old(mesh).faces@ == spec_faces_upto(*data, node_def@, 6 * i as int),
    ensures
        final(mesh).wf(),
        final(mesh).faces@ == spec_faces_upto(*data, node_def@, 6 * (i as int) + 6),
{
    let def = *node_def.get_with_fallback(node.content_id);
    if def.drawtype == DrawType::AirLike {
        proof {
            lemma_faces_upto_skip_node(*data, node_def@, i as int, 6);
        }
        return ;
    }
    let x: i16 = (i % 16) as i16;
    let y: i16 = ((i / 16) % 16) as i16;
    let z: i16 = (i / 256) as i16;

    let mut f: usize = 0;
    while f < 6
        invariant
            data.wf(),
            node_def.wf(),
            i < NODES_PER_BLOCK,
            node == data.spec_center()[i as int],
            def == spec_def_of(node_def@, node.content_id),
            def.drawtype != DrawType::AirLike,
            x as int == idx_x(i as int),
            y as int == idx_y(i as int),
            z as int == idx_z(i as int),
            f <= 6,
            mesh.wf(),
            mesh.faces@ == spec_faces_upto(*data, node_def@, 6 * (i as int) + f as int),
        decreases 6 - f,
    {
        proof {
            lemma_step_decompose(i as int, f as int);
            lemma_faces_upto_len(*data, node_def@, 6 * (i as int) + (f as int));
        }
        let dir = neighbor_dir(f);
        let n_pos = VoxelCoordinate { x: x + dir.0, y: y + dir.1, z: z + dir.2 };
        assert(n_pos == spec_probe_pos(i as int, f as int));

        // A face shows only toward a neighbor classified empty; any other
        // draw type is treated as a solid cuboid and occludes it. Faces
        // toward nodes outside the snapshot's coverage are not generated, as
        // we don't know whether that node occludes them: the mesh is
        // regenerated once the neighboring mapblock arrives.
        let emit = match data.get_node(n_pos) {
            Some(n_node) => {
                let n_def = node_def.get_with_fallback(n_node.content_id);
                n_def.drawtype == DrawType::AirLike
            },
            None => false,
        };
        if emit {
            let face = MeshFace { x, y, z, face: f as u8, texture_index: def.tiles[f] };
            assert(face == spec_face_for(*data, node_def@, i as int, f as int));
            assert(spec_face_emitted(*data, node_def@, i as int, f as int));
            push_quad(mesh, face);
        } else {
            assert(!spec_face_emitted(*data, node_def@, i as int, f as int));
        }
        f = f + 1;
    }
}

/// Generates the mapblock mesh from a snapshot: walks every node in array
/// order and emits the face-culled quads and their triangle indices.
pub fn generate_mesh(data: &MeshgenMapData, node_def: &NodeDefManager) -> (mesh: Mesh)
    requires
        data.wf(),
        node_def.wf(),
    ensures
        mesh.wf(),
        mesh.faces@ == spec_faces(*data, node_def@),
        mesh.faces@.len() <= 24576,
        mesh.indices@.len() == 6 * mesh.faces@.len(),
{
    let mut mesh = Mesh { faces: Vec::new(), indices: Vec::new() };
    let block = data.get_block();
    let mut i: usize = 0;
    while i < NODES_PER_BLOCK
        invariant
            data.wf(),
            node_def.wf(),
            block@ == data.spec_center(),
            block.wf(),
            i <= NODES_PER_BLOCK,
            mesh.wf(),
            mesh.faces@ == spec_faces_upto(*data, node_def@, 6 * i as int),
        decreases NODES_PER_BLOCK - i,
    {
        let node = block.get(i);
        generate_single(data, node_def, &mut mesh, i, node);
        i = i + 1;
    }
    proof {
        lemma_faces_upto_len(*data, node_def@, 4096int * 6);
    }
    mesh
}

/// A finished mapblock mesh result, tagged with the submission timestamp of
/// the task that produced it, for staleness comparison by the receiver.
#[derive(Debug)]
pub struct MapblockMesh {
    pub blockpos: BlockCoordinate,
    pub num_indices: u32,
    /// None if num_indices == 0
    pub mesh: Option<Mesh>,
    pub timestamp_task_spawned: u64,
}

impl MapblockMesh {
    /// Mesh data is present exactly when there is geometry, and the index
    /// count matches it.
    pub open spec fn wf(self) -> bool {
        match self.mesh {
            Some(m) => m.wf() && self.num_indices as int == m.indices@.len() && self.num_indices
                > 0,
            None => self.num_indices == 0,
        }
    }
}

/// What a meshgen task has to do: nothing but report an empty result (the
/// fast path for all-air mapblocks, which skips cloning 7 mapblocks), or run
/// the full algorithm on a snapshot.
#[derive(Debug)]
pub enum MeshgenWork {
    Empty,
    Generate(MeshgenMapData),
}

/// A planned unit of mesh generation work for one mapblock, carrying the
/// snapshot it operates on and the timestamp taken at submission time.
#[derive(Debug)]
pub struct MeshgenTask {
    pub blockpos: BlockCoordinate,
    pub timestamp_task_spawned: u64,
    pub work: MeshgenWork,
}

impl MeshgenTask {
    pub open spec fn wf(self) -> bool {
        match self.work {
            MeshgenWork::Generate(d) => d.wf() && d.spec_blockpos() == self.blockpos,
            MeshgenWork::Empty => true,
        }
    }

    /// Plans the meshgen task for one mapblock. If every node is air the
    /// snapshot is not built at all and the task only reports an empty
    /// result; otherwise the needed mapblock data is cloned out of the map so
    /// the task can run without touching the live map again.
    pub fn new(map: &LuantiMap, blockpos: BlockCoordinate, block: &MapBlockNodes, timestamp: u64)
        -> (r: MeshgenTask)
        requires
            map.wf(),
            blockpos.wf(),
            block.wf(),
        ensures
            r.wf(),
            r.blockpos == blockpos,
            r.timestamp_task_spawned == timestamp,
            match r.work {
                MeshgenWork::Empty => forall|i: int|
                    0 <= i < NODES_PER_BLOCK ==> block@[i].content_id == CONTENT_AIR,
                MeshgenWork::Generate(d) => {
                    &&& !(forall|i: int|
                        0 <= i < NODES_PER_BLOCK ==> block@[i].content_id == CONTENT_AIR)
                    &&& d.spec_blockpos() == blockpos
                    &&& d.spec_center() == block@
                    &&& forall|f: int|
                        0 <= f < 6 ==> d.spec_neighbor(f) == (match spec_block_neighbor(
                            blockpos,
                            f,
                        ) {
                            Some(n) => if map@.contains_key(n) {
                                Some(map@[n])
                            } else {
                                None
                            },
                            None => None,
                        })
                },
            },
    {
        if block.is_all_air() {
            MeshgenTask { blockpos, timestamp_task_spawned: timestamp, work: MeshgenWork::Empty }
        } else {
            let data = MeshgenMapData::new(map, blockpos, block);
            MeshgenTask {
                blockpos,
                timestamp_task_spawned: timestamp,
                work: MeshgenWork::Generate(data),
            }
        }
    }

    /// Runs the task and produces its result. Every task yields exactly one
    /// result: an empty one for the fast path, an empty one when culling left
    /// no faces (a "late empty" mesh, still a valid outcome), and otherwise
    /// the generated geometry.
    pub fn generate(&self, node_def: &NodeDefManager) -> (r: MapblockMesh)
        requires
            self.wf(),
            node_def.wf(),
        ensures
            r.wf(),
            r.blockpos == self.blockpos,
            r.timestamp_task_spawned == self.timestamp_task_spawned,
            match self.work {
                MeshgenWork::Empty => r.num_indices == 0 && r.mesh is None,
                MeshgenWork::Generate(d) => {
                    let faces = spec_faces(d, node_def@);
                    if faces.len() == 0 {
                        r.num_indices == 0 && r.mesh is None
                    } else {
                        match r.mesh {
                            Some(m) => m.faces@ == faces && r.num_indices as int == 6 * faces.len(),
                            None => false,
                        }
                    }
                },
            },
    {
        match &self.work {
            MeshgenWork::Empty => MapblockMesh {
                blockpos: self.blockpos,
                num_indices: 0,
                mesh: None,
                timestamp_task_spawned: self.timestamp_task_spawned,
            },
            MeshgenWork::Generate(data) => {
                let mesh = generate_mesh(data, node_def);
                if mesh.indices.len() == 0 {
                    // A mapblock may be non-empty and still render no faces
                    // (a fully enclosed or fully solid mapblock): a valid
                    // empty result, reported like the fast path's.
                    MapblockMesh {
                        blockpos: self.blockpos,
                        num_indices: 0,
                        mesh: None,
                        timestamp_task_spawned: self.timestamp_task_spawned,
                    }
                } else {
                    let num_indices = mesh.indices.len() as u32;
                    MapblockMesh {
                        blockpos: self.blockpos,
                        num_indices,
                        mesh: Some(mesh),
                        timestamp_task_spawned: self.timestamp_task_spawned,
                    }
                }
            },
        }
    }
}

/// A face between two occluding voxels is never emitted: whatever the
/// snapshot and the definitions, no quad is generated toward a resolvable
/// neighbor node that is not classified empty. In particular, solid/solid
/// contacts never emit.
pub proof fn lemma_no_face_toward_occluder(
    data: MeshgenMapData,
    defs: Map<u16, NodeDef>,
    i: int,
    face: int,
)
    requires
        match data.spec_get_node(spec_probe_pos(i, face)) {
            Some(n) => spec_def_of(defs, n.content_id).drawtype != DrawType::AirLike,
            None => false,
        },
    ensures
        !spec_face_emitted(data, defs, i, face),
{
}

/// A face toward a node outside the snapshot's coverage is suppressed, never
/// emitted: a missing neighbor mapblock defers the decision to the remesh
/// that its arrival triggers.
pub proof fn lemma_no_face_toward_unresolved(
    data: MeshgenMapData,
    defs: Map<u16, NodeDef>,
    i: int,
    face: int,
)
    requires
        data.spec_get_node(spec_probe_pos(i, face)) is None,
    ensures
        !spec_face_emitted(data, defs, i, face),
{
}

/// No step of the algorithm emits a quad on an all-air mapblock.
proof fn lemma_all_air_upto_empty(data: MeshgenMapData, defs: Map<u16, NodeDef>, n: int)
    requires
        data.spec_center().len() == NODES_PER_BLOCK,
        forall|i: int|
            0 <= i < NODES_PER_BLOCK ==> (#[trigger] data.spec_center()[i]).content_id
                == CONTENT_AIR,
        spec_def_of(defs, CONTENT_AIR).drawtype == DrawType::AirLike,
        n <= 4096 * 6,
    ensures
        spec_faces_upto(data, defs, n).len() == 0,
    decreases n,
{
    if n > 0 {
        lemma_all_air_upto_empty(data, defs, n - 1);
        let i = (n - 1) / 6;
        assert(0 <= i < 4096);
        assert(!spec_face_emitted(data, defs, i, (n - 1) % 6));
    }
}

/// The empty fast path changes nothing observable: on a mapblock whose every
/// node is air (given a definition map that classifies air as airlike, as the
/// built-in definitions do), the full algorithm emits no quads either, so
/// both paths report a zero-index result with no mesh data for the block.
pub proof fn lemma_empty_fast_path_equivalence(data: MeshgenMapData, defs: Map<u16, NodeDef>)
    requires
        data.spec_center().len() == NODES_PER_BLOCK,
        forall|i: int|
            0 <= i < NODES_PER_BLOCK ==> (#[trigger] data.spec_center()[i]).content_id
                == CONTENT_AIR,
        spec_def_of(defs, CONTENT_AIR).drawtype == DrawType::AirLike,
    ensures
        spec_faces(data, defs).len() == 0,
{
    lemma_all_air_upto_empty(data, defs, 4096int * 6);
}

} // verus!
