use vstd::prelude::*;
use vstd::arithmetic::div_mod::lemma_fundamental_div_mod_converse;
use crate::coords::{spec_neighbor_dir, neighbor_dir};
use crate::meshgen::{indices_ok, spec_quad_index};

verus! {

/// Edge length of the prototype chunk.
pub const CHUNK_SIZE: usize = 32;

/// Number of cells in one chunk (`CHUNK_SIZE` cubed).
pub const CHUNK_CELLS: usize = 32768;

/// A fixed-size cube of boolean voxels: the standalone precursor of the
/// mapblock pipeline, kept for local experiments without a server. A `true`
/// cell is solid; anything outside the cube counts as empty, so boundary
/// faces are always drawn.
pub struct Chunk {
    // Indexed as z-major: cell (x, y, z) lives at z * 1024 + y * 32 + x
    data: Vec<bool>,
}

impl View for Chunk {
    type V = Seq<bool>;

    closed spec fn view(&self) -> Seq<bool> {
        self.data@
    }
}

/// The flat cell index of position (x, y, z).
pub open spec fn cell_index(x: int, y: int, z: int) -> int {
    z * 1024 + y * 32 + x
}

/// Whether the chunk has a solid voxel at (x, y, z); positions outside the
/// cube are empty.
pub open spec fn chunk_solid(c: Chunk, x: int, y: int, z: int) -> bool {
    &&& 0 <= x < 32
    &&& 0 <= y < 32
    &&& 0 <= z < 32
    &&& c@[cell_index(x, y, z)]
}

impl Chunk {
    pub closed spec fn wf(self) -> bool {
        self@.len() == CHUNK_CELLS
    }

    /// An all-empty chunk.
    pub fn new() -> (r: Chunk)
        ensures
            r.wf(),
            r@.len() == CHUNK_CELLS,
            forall|i: int| 0 <= i < CHUNK_CELLS ==> !r@[i],
    {
        let mut data: Vec<bool> = Vec::new();
        let mut i: usize = 0;
        while i < CHUNK_CELLS
            invariant
                i <= CHUNK_CELLS,
                data@.len() == i,
                forall|j: int| 0 <= j < i ==> !data@[j],
            decreases CHUNK_CELLS - i,
        {
            data.push(false);
            i = i + 1;
        }
        Chunk { data }
    }

    /// Sets one cell.
    pub fn set(&mut self, x: usize, y: usize, z: usize, solid: bool)
        requires
            old(self).wf(),
            x < 32,
            y < 32,
            z < 32,
        ensures
            final(self).wf(),
            final(self)@.len() == CHUNK_CELLS,
            final(self)@ == old(self)@.update(cell_index(x as int, y as int, z as int), solid),
    {
        let index: usize = z * 1024 + y * 32 + x;
        self.data.set(index, solid);
    }

    /// Whether a position lies inside the chunk.
    pub fn check_pos(pos: &(i16, i16, i16)) -> (r: bool)
        ensures
            r <==> (0 <= pos.0 < 32 && 0 <= pos.1 < 32 && 0 <= pos.2 < 32),
    {
        pos.0 >= 0 && pos.0 < 32 && pos.1 >= 0 && pos.1 < 32 && pos.2 >= 0 && pos.2 < 32
    }

    /// Reads the voxel at a position, or nothing for a position outside the
    /// chunk.
    pub fn get(&self, pos: &(i16, i16, i16)) -> (r: Option<bool>)
        requires
            self.wf(),
        ensures
            match r {
                Some(b) => (0 <= pos.0 < 32 && 0 <= pos.1 < 32 && 0 <= pos.2 < 32) && b
                    == chunk_solid(*self, pos.0 as int, pos.1 as int, pos.2 as int),
                None => !(0 <= pos.0 < 32 && 0 <= pos.1 < 32 && 0 <= pos.2 < 32),
            },
    {
        if Self::check_pos(pos) {
            let index: usize = (pos.2 as usize) * 1024 + (pos.1 as usize) * 32 + (pos.0 as usize);
            Some(self.data[index])
        } else {
            None
        }
    }
}

/// One emitted quad of the prototype mesh: the cell's position and the face's
/// number in neighbor offset order.
#[derive(Clone, Copy, PartialEq, Eq, Structural, Debug)]
pub struct ChunkFace {
    pub x: i16,
    pub y: i16,
    pub z: i16,
    pub face: u8,
}

/// The prototype chunk mesh: emitted quads and the triangle index list over
/// their vertices, in the same fixed quad index pattern as the mapblock mesh.
#[derive(Debug)]
pub struct Mesh {
    pub faces: Vec<ChunkFace>,
    pub indices: Vec<u32>,
}

impl Mesh {
    pub open spec fn wf(self) -> bool {
        indices_ok(self.indices@, self.faces@.len() as int)
    }
}

/// The local x offset of the cell at flat index `i`.
pub open spec fn chunk_cell_x(i: int) -> int {
    i % 32
}

/// The local y offset of the cell at flat index `i`.
pub open spec fn chunk_cell_y(i: int) -> int {
    (i / 32) % 32
}

/// The local z offset of the cell at flat index `i`.
pub open spec fn chunk_cell_z(i: int) -> int {
    i / 1024
}

/// Whether face `f` of the cell at flat index `i` is emitted: the cell is
/// solid and the neighbor it faces is not (positions outside the cube count
/// as empty, unlike the mapblock pipeline, which suppresses faces toward
/// unknown data).
pub open spec fn chunk_face_emitted(c: Chunk, i: int, f: int) -> bool {
    let d = spec_neighbor_dir(f);
    &&& chunk_solid(c, chunk_cell_x(i), chunk_cell_y(i), chunk_cell_z(i))
    &&& !chunk_solid(c, chunk_cell_x(i) + d.0, chunk_cell_y(i) + d.1, chunk_cell_z(i) + d.2)
}

/// The quad emitted for face `f` of the cell at flat index `i`.
pub open spec fn chunk_face_for(i: int, f: int) -> ChunkFace {
    ChunkFace {
        x: chunk_cell_x(i) as i16,
        y: chunk_cell_y(i) as i16,
        z: chunk_cell_z(i) as i16,
        face: f as u8,
    }
}

/// The quads emitted by the first `n` cell/face steps, in generation order:
/// cells by ascending flat index, faces in neighbor offset order.
pub open spec fn chunk_faces_upto(c: Chunk, n: int) -> Seq<ChunkFace>
    decreases n,
{
    if n <= 0 {
        Seq::empty()
    } else {
        let prev = chunk_faces_upto(c, n - 1);
        let i = (n - 1) / 6;
        let f = (n - 1) % 6;
        if chunk_face_emitted(c, i, f) {
            prev.push(chunk_face_for(i, f))
        } else {
            prev
        }
    }
}

/// All quads the prototype algorithm emits for a chunk.
pub open spec fn chunk_faces(c: Chunk) -> Seq<ChunkFace> {
    chunk_faces_upto(c, 32768int * 6)
}

proof fn lemma_chunk_step_decompose(i: int, t: int)
    requires
        0 <= t < 6,
    ensures
        (6 * i + t) / 6 == i,
        (6 * i + t) % 6 == t,
{
    lemma_fundamental_div_mod_converse(6 * i + t, 6, i, t);
}

proof fn lemma_chunk_faces_upto_len(c: Chunk, n: int)
    ensures
        chunk_faces_upto(c, n).len() <= if n <= 0 {
            0
        } else {
            n
        },
    decreases n,
{
    if n > 0 {
        lemma_chunk_faces_upto_len(c, n - 1);
    }
}

/// An empty cell emits nothing: its six steps leave the quad list unchanged.
proof fn lemma_chunk_faces_upto_skip(c: Chunk, i: int, t: int)
    requires
        0 <= i < CHUNK_CELLS,
        0 <= t <= 6,
        !chunk_solid(c, chunk_cell_x(i), chunk_cell_y(i), chunk_cell_z(i)),
    ensures
        chunk_faces_upto(c, 6 * i + t) == chunk_faces_upto(c, 6 * i),
    decreases t,
{
    if t > 0 {
        lemma_chunk_faces_upto_skip(c, i, t - 1);
        lemma_chunk_step_decompose(i, t - 1);
        assert(!chunk_face_emitted(c, i, t - 1));
    }
}

/// Appends the quad and its 6 triangle indices to the mesh.
fn chunk_push_quad(mesh: &mut Mesh, face: ChunkFace)
    requires
        old(mesh).wf(),
        old(mesh).faces@.len() < 196608,
    ensures
        final(mesh).wf(),
        final(mesh).faces@ == old(mesh).faces@.push(face),
{
    let q = mesh.faces.len();
    let base: u32 = (4 * q) as u32;
    mesh.faces.push(face);
    mesh.indices.push(base);
    mesh.indices.push(base + 1);
    mesh.indices.push(base + 2);
    mesh.indices.push(base + 2);
    mesh.indices.push(base + 3);
    mesh.indices.push(base);
    proof {
        let qi = q as int;
        assert forall|q2: int, k: int| 0 <= q2 < qi + 1 && 0 <= k < 6 implies #[trigger] mesh
            .indices@[6 * q2 + k] == spec_quad_index(q2, k) by {
            if q2 < qi {
                assert(old(mesh).indices@[6 * q2 + k] == spec_quad_index(q2, k));
                assert(0 <= 6 * q2 + k < 6 * qi) by (nonlinear_arith)
                    requires
                        0 <= q2 < qi,
                        0 <= k < 6,
                ;
                assert(mesh.indices@[6 * q2 + k] == old(mesh).indices@[6 * q2 + k]);
            } else {
                assert(mesh.indices@[6 * qi + 0] == base);
                assert(mesh.indices@[6 * qi + 1] == base + 1);
                assert(mesh.indices@[6 * qi + 2] == base + 2);
                assert(mesh.indices@[6 * qi + 3] == base + 2);
                assert(mesh.indices@[6 * qi + 4] == base + 3);
                assert(mesh.indices@[6 * qi + 5] == base);
            }
        }
    }
}

/// Generates the quads for a single solid voxel: one for each face whose
/// neighbor is empty or outside the chunk.
fn generate_mesh_single(chunk: &Chunk, mesh: &mut Mesh, i: usize)
    requires
        chunk.wf(),
        i < CHUNK_CELLS,
        chunk_solid(*chunk, chunk_cell_x(i as int), chunk_cell_y(i as int), chunk_cell_z(i as int)),
        old(mesh).wf(),
        old(mesh).faces@ == chunk_faces_upto(*chunk, 6 * i as int),
    ensures
        final(mesh).wf(),
        final(mesh).faces@ == chunk_faces_upto(*chunk, 6 * (i as int) + 6),
{
    let x: i16 = (i % 32) as i16;
    let y: i16 = ((i / 32) % 32) as i16;
    let z: i16 = (i / 1024) as i16;

    let mut f: usize = 0;
    while f < 6
        invariant
            chunk.wf(),
            i < CHUNK_CELLS,
            chunk_solid(
                *chunk,
                chunk_cell_x(i as int),
                chunk_cell_y(i as int),
                chunk_cell_z(i as int),
            ),
            x as int == chunk_cell_x(i as int),
            y as int == chunk_cell_y(i as int),
            z as int == chunk_cell_z(i as int),
            f <= 6,
            mesh.wf(),
            mesh.faces@ == chunk_faces_upto(*chunk, 6 * (i as int) + f as int),
        decreases 6 - f,
    {
        proof {
            lemma_chunk_step_decompose(i as int, f as int);
            lemma_chunk_faces_upto_len(*chunk, 6 * (i as int) + (f as int));
        }
        let dir = neighbor_dir(f);
        let n_pos = (x + dir.0, y + dir.1, z + dir.2);
        let n_voxel = match chunk.get(&n_pos) {
            Some(b) => b,
            None => false,
        };
        if !n_voxel {
            let face = ChunkFace { x, y, z, face: f as u8 };
            assert(face == chunk_face_for(i as int, f as int));
            assert(chunk_face_emitted(*chunk, i as int, f as int));
            chunk_push_quad(mesh, face);
        } else {
            assert(!chunk_face_emitted(*chunk, i as int, f as int));
        }
        f = f + 1;
    }
}

/// Generates the face-culled mesh of a chunk: walks every cell in z-major
/// order and emits the quads of solid cells whose neighbors do not occlude
/// them.
pub fn generate_mesh(chunk: &Chunk) -> (mesh: Mesh)
    requires
        chunk.wf(),
    ensures
        mesh.wf(),
        mesh.faces@ == chunk_faces(*chunk),
        mesh.indices@.len() == 6 * mesh.faces@.len(),
{
    let mut mesh = Mesh { faces: Vec::new(), indices: Vec::new() };
    let mut i: usize = 0;
    while i < CHUNK_CELLS
        invariant
            chunk.wf(),
            i <= CHUNK_CELLS,
            mesh.wf(),
            mesh.faces@ == chunk_faces_upto(*chunk, 6 * i as int),
        decreases CHUNK_CELLS - i,
    {
        let voxel = self_cell(chunk, i);
        if voxel {
            generate_mesh_single(chunk, &mut mesh, i);
        } else {
            proof {
                lemma_chunk_faces_upto_skip(*chunk, i as int, 6);
            }
        }
        i = i + 1;
    }
    mesh
}

/// Reads the cell at a flat index.
fn self_cell(chunk: &Chunk, i: usize) -> (r: bool)
    requires
        chunk.wf(),
        i < CHUNK_CELLS,
    ensures
        r == chunk_solid(
            *chunk,
            chunk_cell_x(i as int),
            chunk_cell_y(i as int),
            chunk_cell_z(i as int),
        ),
{
    let x: i16 = (i % 32) as i16;
    let y: i16 = ((i / 32) % 32) as i16;
    let z: i16 = (i / 1024) as i16;
    match chunk.get(&(x, y, z)) {
        Some(b) => b,
        None => unreached(),
    }
}

} // verus!
