use vstd::prelude::*;
use crate::assoc::{assoc_map, assoc_distinct_keys, lemma_assoc_map_contains,
    lemma_assoc_map_index, lemma_assoc_map_update, lemma_assoc_map_push, lemma_assoc_map_dom_len};
use crate::coords::{BlockCoordinate, VoxelCoordinate, spec_neighbor_dir, neighbor_dir};
use crate::block::{MapNode, MapBlockNodes};

verus! {

/// The map entries with each mapblock read as its node sequence.
pub open spec fn viewed_entries(s: Seq<(BlockCoordinate, MapBlockNodes)>) -> Seq<
    (BlockCoordinate, Seq<MapNode>),
> {
    s.map_values(|e: (BlockCoordinate, MapBlockNodes)| (e.0, e.1@))
}

/// The map entries as a mathematical map from mapblock coordinate to node
/// sequence; later entries shadow earlier ones with the same key.
pub open spec fn entries_map(s: Seq<(BlockCoordinate, MapBlockNodes)>) -> Map<
    BlockCoordinate,
    Seq<MapNode>,
> {
    assoc_map(viewed_entries(s))
}

/// Distinct entry keys carry over to the viewed entries.
proof fn lemma_viewed_distinct(s: Seq<(BlockCoordinate, MapBlockNodes)>)
    requires
        assoc_distinct_keys(s),
    ensures
        assoc_distinct_keys(viewed_entries(s)),
{
    let v = viewed_entries(s);
    assert forall|i: int, j: int| 0 <= i < j < v.len() implies v[i].0 != v[j].0 by {
        assert(v[i].0 == s[i].0);
        assert(v[j].0 == s[j].0);
    }
}

/// A key is in the map exactly when some entry carries it.
proof fn lemma_entries_map_contains(s: Seq<(BlockCoordinate, MapBlockNodes)>, k: BlockCoordinate)
    ensures
        entries_map(s).contains_key(k) <==> exists|i: int| 0 <= i < s.len() && s[i].0 == k,
{
    let v = viewed_entries(s);
    lemma_assoc_map_contains(v, k);
    if exists|i: int| 0 <= i < v.len() && v[i].0 == k {
        let i = choose|i: int| 0 <= i < v.len() && v[i].0 == k;
        assert(s[i].0 == k);
    }
    if exists|i: int| 0 <= i < s.len() && s[i].0 == k {
        let i = choose|i: int| 0 <= i < s.len() && s[i].0 == k;
        assert(v[i].0 == k);
    }
}

/// With distinct keys, each entry is found in the map unchanged.
proof fn lemma_entries_map_index(s: Seq<(BlockCoordinate, MapBlockNodes)>, i: int)
    requires
        assoc_distinct_keys(s),
        0 <= i < s.len(),
    ensures
        entries_map(s).contains_key(s[i].0),
        entries_map(s)[s[i].0] == s[i].1@,
{
    lemma_viewed_distinct(s);
    lemma_assoc_map_index(viewed_entries(s), i);
    assert(viewed_entries(s)[i] == (s[i].0, s[i].1@));
}

/// With distinct keys, the map has exactly one key per entry.
proof fn lemma_entries_map_dom_len(s: Seq<(BlockCoordinate, MapBlockNodes)>)
    requires
        assoc_distinct_keys(s),
    ensures
        entries_map(s).dom().finite(),
        entries_map(s).dom().len() == s.len(),
{
    lemma_viewed_distinct(s);
    lemma_assoc_map_dom_len(viewed_entries(s));
}

/// Replacing the payload of entry `i` updates exactly that key in the map.
proof fn lemma_entries_map_update(
    s: Seq<(BlockCoordinate, MapBlockNodes)>,
    i: int,
    v: MapBlockNodes,
)
    requires
        assoc_distinct_keys(s),
        0 <= i < s.len(),
    ensures
        entries_map(s.update(i, (s[i].0, v))) == entries_map(s).insert(s[i].0, v@),
{
    lemma_viewed_distinct(s);
    lemma_assoc_map_update(viewed_entries(s), i, v@);
    assert(viewed_entries(s.update(i, (s[i].0, v))) =~= viewed_entries(s).update(
        i,
        (s[i].0, v@),
    ));
}

/// Appending an entry with a fresh key inserts exactly that key.
proof fn lemma_entries_map_push(
    s: Seq<(BlockCoordinate, MapBlockNodes)>,
    k: BlockCoordinate,
    v: MapBlockNodes,
)
    ensures
        entries_map(s.push((k, v))) == entries_map(s).insert(k, v@),
{
    lemma_assoc_map_push(viewed_entries(s), k, v@);
    assert(viewed_entries(s.push((k, v))) =~= viewed_entries(s).push((k, v@)));
}

/// A Luanti map: the sparse store of all mapblocks received so far, keyed by
/// mapblock coordinate. Owned by a single task; mutations happen in network
/// arrival order.
pub struct LuantiMap {
    entries: Vec<(BlockCoordinate, MapBlockNodes)>,
}

impl View for LuantiMap {
    type V = Map<BlockCoordinate, Seq<MapNode>>;

    closed spec fn view(&self) -> Map<BlockCoordinate, Seq<MapNode>> {
        entries_map(self.entries@)
    }
}

impl LuantiMap {
    /// Keys are unique and every stored coordinate and mapblock is well formed.
    pub closed spec fn wf(self) -> bool {
        &&& assoc_distinct_keys(self.entries@)
        &&& forall|i: int|
            0 <= i < self.entries@.len() ==> (#[trigger] self.entries@[i]).0.wf()
                && self.entries@[i].1.wf()
    }

    /// Returns an empty map.
    pub fn new() -> (r: LuantiMap)
        ensures
            r.wf(),
            r@ == Map::<BlockCoordinate, Seq<MapNode>>::empty(),
    {
        LuantiMap { entries: Vec::new() }
    }

    /// Number of mapblocks currently stored.
    pub fn block_count(&self) -> (r: usize)
        requires
            self.wf(),
        ensures
            r == self@.dom().len(),
            self@.dom().finite(),
    {
        proof {
            lemma_entries_map_dom_len(self.entries@);
        }
        self.entries.len()
    }

    /// Index of the entry holding `blockpos`, if any.
    fn find(&self, blockpos: &BlockCoordinate) -> (r: Option<usize>)
        ensures
            match r {
                Some(i) => i < self.entries@.len() && self.entries@[i as int].0 == *blockpos,
                None => forall|i: int|
                    0 <= i < self.entries@.len() ==> (#[trigger] self.entries@[i]).0 != *blockpos,
            },
    {
        let mut i: usize = 0;
        while i < self.entries.len()
            invariant
                i <= self.entries@.len(),
                forall|j: int| 0 <= j < i ==> (#[trigger] self.entries@[j]).0 != *blockpos,
            decreases self.entries@.len() - i,
        {
            let (k, _) = &self.entries[i];
            if k.x == blockpos.x && k.y == blockpos.y && k.z == blockpos.z {
                return Some(i);
            }
            i = i + 1;
        }
        None
    }

    /// Inserts a mapblock into the map.
    /// Replaces the mapblock if it already exists.
    pub fn insert_block(&mut self, blockpos: BlockCoordinate, data: MapBlockNodes)
        requires
            old(self).wf(),
            blockpos.wf(),
            data.wf(),
        ensures
            final(self).wf(),
            final(self)@ == old(self)@.insert(blockpos, data@),
    {
        proof {
            lemma_entries_map_contains(self.entries@, blockpos);
        }
        match self.find(&blockpos) {
            Some(i) => {
                proof {
                    lemma_entries_map_update(self.entries@, i as int, data);
                }
                self.entries.set(i, (blockpos, data));
            },
            None => {
                proof {
                    lemma_entries_map_push(self.entries@, blockpos, data);
                }
                self.entries.push((blockpos, data));
            },
        }
    }

    /// Gets a mapblock from the map.
    /// Returns None if the mapblock doesn't exist.
    pub fn get_block(&self, blockpos: &BlockCoordinate) -> (r: Option<&MapBlockNodes>)
        requires
            self.wf(),
        ensures
            match r {
                Some(b) => self@.contains_key(*blockpos) && b@ == self@[*blockpos] && b.wf(),
                None => !self@.contains_key(*blockpos),
            },
    {
        proof {
            lemma_entries_map_contains(self.entries@, *blockpos);
        }
        match self.find(blockpos) {
            Some(i) => {
                proof {
                    lemma_entries_map_index(self.entries@, i as int);
                }
                let (_, b) = &self.entries[i];
                Some(b)
            },
            None => None,
        }
    }

    /// Sets a node in the map.
    /// Returns the modified mapblock's position.
    /// Returns None and does nothing if the mapblock that would contain the
    /// node doesn't exist: the server is authoritative and will resend it.
    pub fn set_node(&mut self, pos: &VoxelCoordinate, node: MapNode) -> (r: Option<BlockCoordinate>)
        requires
            old(self).wf(),
        ensures
            final(self).wf(),
            match r {
                Some(b) => {
                    &&& b == pos.spec_block()
                    &&& old(self)@.contains_key(b)
                    &&& final(self)@ == old(self)@.insert(
                        b,
                        old(self)@[b].update(pos.spec_index(), node),
                    )
                },
                None => !old(self)@.contains_key(pos.spec_block()) && final(self)@ == old(self)@,
            },
            final(self)@.dom() == old(self)@.dom(),
    {
        let (blockpos, index) = pos.split_index();
        proof {
            lemma_entries_map_contains(self.entries@, blockpos);
        }
        let r = match self.find(&blockpos) {
            Some(i) => {
                let (_, b) = &self.entries[i];
                let mut updated = b.clone();
                updated.set(index, node);
                proof {
                    lemma_entries_map_index(self.entries@, i as int);
                    lemma_entries_map_update(self.entries@, i as int, updated);
                }
                self.entries.set(i, (blockpos, updated));
                Some(blockpos)
            },
            None => None,
        };
        proof {
            if r is None {
                assert(final(self)@.dom() =~= old(self)@.dom());
            } else {
                assert(final(self)@.dom() =~= old(self)@.dom());
            }
        }
        r
    }
}

/// The coordinate of the face-adjacent neighbor of mapblock `b` on side
/// `face`, or `None` if that neighbor lies outside the valid mapblock range.
pub open spec fn spec_block_neighbor(b: BlockCoordinate, face: int) -> Option<BlockCoordinate> {
    let d = spec_neighbor_dir(face);
    let n = BlockCoordinate { x: (b.x + d.0) as i16, y: (b.y + d.1) as i16, z: (b.z + d.2) as i16 };
    if n.wf() {
        Some(n)
    } else {
        None
    }
}

/// The neighbor offset of side `face`, read as a relative mapblock coordinate.
pub open spec fn dir_as_block(face: int) -> BlockCoordinate {
    let d = spec_neighbor_dir(face);
    BlockCoordinate { x: d.0, y: d.1, z: d.2 }
}

/// Stores a clone of a mapblock and its 6 neighbors (if those exist).
/// Built at submission time so mesh workers never read the live map; it
/// reflects the map's state at one instant and is never updated.
#[derive(Debug)]
pub struct MeshgenMapData {
    blockpos: BlockCoordinate,
    block: MapBlockNodes,
    // Indexed by face, in neighbor_dir order
    neighbors: Vec<Option<MapBlockNodes>>,
}

impl MeshgenMapData {
    /// The coordinate of the snapshot's center mapblock.
    pub closed spec fn spec_blockpos(self) -> BlockCoordinate {
        self.blockpos
    }

    /// The nodes of the center mapblock.
    pub closed spec fn spec_center(self) -> Seq<MapNode> {
        self.block@
    }

    /// The nodes of the neighbor on side `face`, if that mapblock was present.
    pub closed spec fn spec_neighbor(self, face: int) -> Option<Seq<MapNode>>
        recommends
            0 <= face < 6,
    {
        match self.neighbors@[face] {
            Some(b) => Some(b@),
            None => None,
        }
    }

    pub closed spec fn wf(self) -> bool {
        &&& self.blockpos.wf()
        &&& self.block.wf()
        &&& self.neighbors@.len() == 6
        &&& forall|f: int|
            0 <= f < 6 ==> match #[trigger] self.neighbors@[f] {
                Some(b) => b.wf(),
                None => true,
            }
    }

    /// Creates a new MeshgenMapData, cloning the needed mapblock data.
    pub fn new(map: &LuantiMap, blockpos: BlockCoordinate, block: &MapBlockNodes) -> (r:
        MeshgenMapData)
        requires
            map.wf(),
            blockpos.wf(),
            block.wf(),
        ensures
            r.wf(),
            r.spec_blockpos() == blockpos,
            r.spec_center() == block@,
            forall|f: int|
                0 <= f < 6 ==> r.spec_neighbor(f) == (match spec_block_neighbor(blockpos, f) {
                    Some(n) => if map@.contains_key(n) {
                        Some(map@[n])
                    } else {
                        None
                    },
                    None => None,
                }),
    {
        let mut neighbors: Vec<Option<MapBlockNodes>> = Vec::new();
        let mut f: usize = 0;
        while f < 6
            invariant
                f <= 6,
                map.wf(),
                blockpos.wf(),
                neighbors@.len() == f,
                forall|g: int|
                    0 <= g < f ==> match #[trigger] neighbors@[g] {
                        Some(b) => b.wf(),
                        None => true,
                    },
                forall|g: int|
                    0 <= g < f ==> (match #[trigger] neighbors@[g] {
                        Some(b) => Some(b@),
                        None => None,
                    }) == (match spec_block_neighbor(blockpos, g) {
                        Some(n) => if map@.contains_key(n) {
                            Some(map@[n])
                        } else {
                            None
                        },
                        None => None,
                    }),
            decreases 6 - f,
        {
            let entry = match blockpos.checked_add(neighbor_dir(f)) {
                Some(n_blockpos) => match map.get_block(&n_blockpos) {
                    Some(n_block) => Some(n_block.clone()),
                    None => None,
                },
                None => None,
            };
            neighbors.push(entry);
            f = f + 1;
        }
        MeshgenMapData { blockpos, block: block.clone(), neighbors }
    }

    pub fn get_blockpos(&self) -> (r: BlockCoordinate)
        ensures
            r == self.spec_blockpos(),
    {
        self.blockpos
    }

    pub fn get_block(&self) -> (r: &MapBlockNodes)
        requires
            self.wf(),
        ensures
            r@ == self.spec_center(),
            r.wf(),
    {
        &self.block
    }

    /// What `get_node` resolves for a position relative to the center
    /// mapblock: the center for in-range positions, the matching neighbor for
    /// positions exactly one mapblock over (if it was present), and nothing
    /// for anything farther out.
    pub open spec fn spec_get_node(self, pos: VoxelCoordinate) -> Option<MapNode> {
        let b = pos.spec_block();
        let idx = pos.spec_index();
        if b == (BlockCoordinate { x: 0i16, y: 0i16, z: 0i16 }) {
            Some(self.spec_center()[idx])
        } else if b == dir_as_block(0) {
            self.spec_neighbor_node(0, idx)
        } else if b == dir_as_block(1) {
            self.spec_neighbor_node(1, idx)
        } else if b == dir_as_block(2) {
            self.spec_neighbor_node(2, idx)
        } else if b == dir_as_block(3) {
            self.spec_neighbor_node(3, idx)
        } else if b == dir_as_block(4) {
            self.spec_neighbor_node(4, idx)
        } else if b == dir_as_block(5) {
            self.spec_neighbor_node(5, idx)
        } else {
            None
        }
    }

    pub open spec fn spec_neighbor_node(self, face: int, idx: int) -> Option<MapNode>
        recommends
            0 <= face < 6,
    {
        match self.spec_neighbor(face) {
            Some(nodes) => Some(nodes[idx]),
            None => None,
        }
    }

    /// Returns a node from this mapblock or its neighbors.
    /// Coordinates are relative to the main mapblock.
    /// Returns None if the mapblock that would contain the node doesn't exist
    /// or is outside of the MeshgenMapData's region.
    pub fn get_node(&self, pos: VoxelCoordinate) -> (r: Option<MapNode>)
        requires
            self.wf(),
        ensures
            r == self.spec_get_node(pos),
    {
        let (blockpos, index) = pos.split_index();

        if blockpos.x == 0 && blockpos.y == 0 && blockpos.z == 0 {
            return Some(self.block.get(index));
        }

        // The inverse of the neighbor offset table
        let n_index: Option<usize> = if blockpos.x == 0 && blockpos.y == 1 && blockpos.z == 0 {
            Some(0)
        } else if blockpos.x == 0 && blockpos.y == -1 && blockpos.z == 0 {
            Some(1)
        } else if blockpos.x == 1 && blockpos.y == 0 && blockpos.z == 0 {
            Some(2)
        } else if blockpos.x == -1 && blockpos.y == 0 && blockpos.z == 0 {
            Some(3)
        } else if blockpos.x == 0 && blockpos.y == 0 && blockpos.z == 1 {
            Some(4)
        } else if blockpos.x == 0 && blockpos.y == 0 && blockpos.z == -1 {
            Some(5)
        } else {
            None
        };

        match n_index {
            Some(f) => match &self.neighbors[f] {
                Some(n_block) => Some(n_block.get(index)),
                None => None,
            },
            None => None,
        }
    }
}

} // verus!
