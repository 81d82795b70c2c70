use vstd::prelude::*;
use vstd::arithmetic::div_mod::{lemma_fundamental_div_mod, lemma_fundamental_div_mod_converse};

verus! {

/// Edge length of a mapblock: a mapblock is a cube of `BLOCK_SIZE`^3 nodes.
pub const BLOCK_SIZE: i16 = 16;

/// Number of nodes in one mapblock (`BLOCK_SIZE` cubed).
pub const NODES_PER_BLOCK: usize = 4096;

/// Smallest valid mapblock coordinate on each axis. Chosen so that every node
/// of a valid mapblock has a world coordinate that fits in an `i16`.
pub const BLOCK_AXIS_MIN: i16 = -2048;

/// Largest valid mapblock coordinate on each axis.
pub const BLOCK_AXIS_MAX: i16 = 2047;

/// Identifies one mapblock: the cube of nodes whose world coordinates lie in
/// `[16 * axis, 16 * axis + 15]` on each axis.
#[derive(Clone, Copy, PartialEq, Eq, Structural, Debug)]
pub struct BlockCoordinate {
    pub x: i16,
    pub y: i16,
    pub z: i16,
}

/// Identifies one node (voxel) in world space.
#[derive(Clone, Copy, PartialEq, Eq, Structural, Debug)]
pub struct VoxelCoordinate {
    pub x: i16,
    pub y: i16,
    pub z: i16,
}

/// Floor division of a world axis coordinate by the mapblock edge length.
pub open spec fn block_axis(v: int) -> int {
    v / 16
}

/// Remainder of a world axis coordinate within its mapblock, in `[0, 16)`.
pub open spec fn local_axis(v: int) -> int {
    v % 16
}

impl BlockCoordinate {
    /// All axes within the range where every contained node coordinate
    /// fits in an `i16`.
    pub open spec fn wf(self) -> bool {
        &&& BLOCK_AXIS_MIN <= self.x <= BLOCK_AXIS_MAX
        &&& BLOCK_AXIS_MIN <= self.y <= BLOCK_AXIS_MAX
        &&& BLOCK_AXIS_MIN <= self.z <= BLOCK_AXIS_MAX
    }

    pub fn new(x: i16, y: i16, z: i16) -> (r: Option<BlockCoordinate>)
        ensures
            match r {
                Some(b) => b.wf() && b == (BlockCoordinate { x, y, z }),
                None => !(BlockCoordinate { x, y, z }).wf(),
            },
    {
        if BLOCK_AXIS_MIN <= x && x <= BLOCK_AXIS_MAX && BLOCK_AXIS_MIN <= y && y <= BLOCK_AXIS_MAX
            && BLOCK_AXIS_MIN <= z && z <= BLOCK_AXIS_MAX {
            Some(BlockCoordinate { x, y, z })
        } else {
            None
        }
    }

    /// Componentwise sum, or `None` if the sum leaves the valid mapblock range.
    pub fn checked_add(&self, dir: (i16, i16, i16)) -> (r: Option<BlockCoordinate>)
        requires
            self.wf(),
            -16 <= dir.0 <= 16,
            -16 <= dir.1 <= 16,
            -16 <= dir.2 <= 16,
        ensures
            match r {
                Some(b) => {
                    &&& b.wf()
                    &&& b.x as int == self.x + dir.0
                    &&& b.y as int == self.y + dir.1
                    &&& b.z as int == self.z + dir.2
                },
                None => !(BlockCoordinate {
                    x: (self.x + dir.0) as i16,
                    y: (self.y + dir.1) as i16,
                    z: (self.z + dir.2) as i16,
                }).wf(),
            },
    {
        let x = self.x + dir.0;
        let y = self.y + dir.1;
        let z = self.z + dir.2;
        BlockCoordinate::new(x, y, z)
    }
}

/// Splits one world axis coordinate into its mapblock axis coordinate and
/// the node's offset inside that mapblock.
fn axis_split(v: i16) -> (r: (i16, u16))
    ensures
        r.0 as int == block_axis(v as int),
        r.1 as int == local_axis(v as int),
{
    let shifted: u32 = ((v as i32) + 32768) as u32;
    let b: u32 = shifted / 16;
    let l: u32 = shifted % 16;
    proof {
        let vi = v as int;
        lemma_fundamental_div_mod(vi, 16);
        let q = vi / 16;
        let r = vi % 16;
        assert(shifted as int == (q + 2048) * 16 + r);
        lemma_fundamental_div_mod_converse(shifted as int, 16, q + 2048, r);
    }
    ((b as i32 - 2048) as i16, l as u16)
}

impl VoxelCoordinate {
    /// The mapblock that contains this node.
    pub open spec fn spec_block(self) -> BlockCoordinate {
        BlockCoordinate {
            x: block_axis(self.x as int) as i16,
            y: block_axis(self.y as int) as i16,
            z: block_axis(self.z as int) as i16,
        }
    }

    /// The node's position in its mapblock's node array: x fastest, z slowest.
    pub open spec fn spec_index(self) -> int {
        local_axis(self.z as int) * 256 + local_axis(self.y as int) * 16 + local_axis(
            self.x as int,
        )
    }

    /// Splits a world node position into the containing mapblock's coordinate
    /// and the node's index inside that mapblock's node array.
    pub fn split_index(&self) -> (r: (BlockCoordinate, usize))
        ensures
            r.0 == self.spec_block(),
            r.0.wf(),
            r.1 as int == self.spec_index(),
            r.1 < NODES_PER_BLOCK,
    {
        let (bx, lx) = axis_split(self.x);
        let (by, ly) = axis_split(self.y);
        let (bz, lz) = axis_split(self.z);
        let index: usize = (lz as usize) * 256 + (ly as usize) * 16 + (lx as usize);
        (BlockCoordinate { x: bx, y: by, z: bz }, index)
    }
}

/// The node position produced by placing the node with array index `index`
/// in the mapblock at `b`.
pub open spec fn spec_compose(b: BlockCoordinate, index: int) -> VoxelCoordinate {
    VoxelCoordinate {
        x: (16 * b.x + index % 16) as i16,
        y: (16 * b.y + (index / 16) % 16) as i16,
        z: (16 * b.z + index / 256) as i16,
    }
}

/// Reassembles a world node position from a mapblock coordinate and a node
/// array index: the exact inverse of `VoxelCoordinate::split_index`.
pub fn compose(b: &BlockCoordinate, index: usize) -> (v: VoxelCoordinate)
    requires
        b.wf(),
        index < NODES_PER_BLOCK,
    ensures
        v == spec_compose(*b, index as int),
        v.spec_block() == *b,
        v.spec_index() == index as int,
{
    let lx: u16 = (index % 16) as u16;
    let ly: u16 = ((index / 16) % 16) as u16;
    let lz: u16 = (index / 256) as u16;
    let x: i16 = 16 * b.x + lx as i16;
    let y: i16 = 16 * b.y + ly as i16;
    let z: i16 = 16 * b.z + lz as i16;
    proof {
        lemma_fundamental_div_mod_converse(x as int, 16, b.x as int, lx as int);
        lemma_fundamental_div_mod_converse(y as int, 16, b.y as int, ly as int);
        lemma_fundamental_div_mod_converse(z as int, 16, b.z as int, lz as int);
        lemma_index_digits(index as int);
    }
    VoxelCoordinate { x, y, z }
}

/// The three base-16 digits of a node array index: `index % 16` selects x,
/// `(index / 16) % 16` selects y, and `index / 256` selects z.
proof fn lemma_index_digits(index: int)
    requires
        0 <= index < 4096,
    ensures
        index == (index / 256) * 256 + ((index / 16) % 16) * 16 + index % 16,
        0 <= index % 16 < 16,
        0 <= (index / 16) % 16 < 16,
        0 <= index / 256 < 16,
        index / 256 == (index / 16) / 16,
{
    lemma_fundamental_div_mod(index, 16);
    let q1 = index / 16;
    let r1 = index % 16;
    lemma_fundamental_div_mod(q1, 16);
    let q2 = q1 / 16;
    let r2 = q1 % 16;
    assert(0 <= q1 < 256);
    assert(index == (q2 * 16 + r2) * 16 + r1);
    assert(index == q2 * 256 + (r2 * 16 + r1)) by (nonlinear_arith)
        requires
            index == (q2 * 16 + r2) * 16 + r1,
    ;
    lemma_fundamental_div_mod_converse(index, 256, q2, r2 * 16 + r1);
}

/// Splitting a node position and composing the parts again yields the same
/// position: decomposition and composition are exact two-sided inverses.
pub proof fn lemma_compose_split_inverse(v: VoxelCoordinate)
    ensures
        spec_compose(v.spec_block(), v.spec_index()) == v,
{
    let index = v.spec_index();
    let lx = local_axis(v.x as int);
    let ly = local_axis(v.y as int);
    let lz = local_axis(v.z as int);
    lemma_fundamental_div_mod(v.x as int, 16);
    lemma_fundamental_div_mod(v.y as int, 16);
    lemma_fundamental_div_mod(v.z as int, 16);
    assert(index == lz * 256 + ly * 16 + lx);
    lemma_fundamental_div_mod_converse(index, 16, lz * 16 + ly, lx);
    lemma_fundamental_div_mod_converse(lz * 16 + ly, 16, lz, ly);
    assert(index == lz * 256 + (ly * 16 + lx)) by (nonlinear_arith)
        requires
            index == lz * 256 + ly * 16 + lx,
    ;
    lemma_fundamental_div_mod_converse(index, 256, lz, ly * 16 + lx);
}

/// Offsets of the 6 face-adjacent neighbors of a mapblock or node.
/// Order: +Y, -Y, +X, -X, +Z, -Z.
pub open spec fn spec_neighbor_dir(face: int) -> (i16, i16, i16) {
    if face == 0 {
        (0i16, 1i16, 0i16)
    } else if face == 1 {
        (0i16, -1i16, 0i16)
    } else if face == 2 {
        (1i16, 0i16, 0i16)
    } else if face == 3 {
        (-1i16, 0i16, 0i16)
    } else if face == 4 {
        (0i16, 0i16, 1i16)
    } else {
        (0i16, 0i16, -1i16)
    }
}

/// Returns the offset of face-adjacent neighbor number `face`.
/// Order: +Y, -Y, +X, -X, +Z, -Z.
pub fn neighbor_dir(face: usize) -> (r: (i16, i16, i16))
    requires
        face < 6,
    ensures
        r == spec_neighbor_dir(face as int),
{
    match face {
        0 => (0, 1, 0),
        1 => (0, -1, 0),
        2 => (1, 0, 0),
        3 => (-1, 0, 0),
        4 => (0, 0, 1),
        _ => (0, 0, -1),
    }
}

} // verus!
