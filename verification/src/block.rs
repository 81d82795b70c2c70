use vstd::prelude::*;
use crate::coords::NODES_PER_BLOCK;

verus! {

/// Content identifier of the fallback definition used for unknown nodes.
pub const CONTENT_UNKNOWN: u16 = 125;

/// Content identifier of air, the vacuum node: no geometry, lets every
/// neighboring face show.
pub const CONTENT_AIR: u16 = 126;

/// Content identifier of "ignore", the placeholder for not-yet-known content.
pub const CONTENT_IGNORE: u16 = 127;

/// One node (voxel) record: a content identifier and two parameter bytes.
#[derive(Clone, Copy, PartialEq, Eq, Structural, Debug)]
pub struct MapNode {
    pub content_id: u16,
    pub param1: u8,
    pub param2: u8,
}

impl MapNode {
    /// The air node written by node removal.
    pub fn air() -> (r: MapNode)
        ensures
            r == (MapNode { content_id: CONTENT_AIR, param1: 0u8, param2: 0u8 }),
    {
        MapNode { content_id: CONTENT_AIR, param1: 0, param2: 0 }
    }
}

/// The nodes of one mapblock, in `split_index` order (x fastest, z slowest).
#[derive(Debug)]
pub struct MapBlockNodes {
    pub nodes: Vec<MapNode>,
}

impl View for MapBlockNodes {
    type V = Seq<MapNode>;

    open spec fn view(&self) -> Seq<MapNode> {
        self.nodes@
    }
}

impl Clone for MapBlockNodes {
    fn clone(&self) -> (r: Self)
        ensures
            r@ == self@,
    {
        let mut nodes: Vec<MapNode> = Vec::new();
        let mut i: usize = 0;
        while i < self.nodes.len()
            invariant
                i <= self.nodes.len(),
                nodes@ == self.nodes@.subrange(0, i as int),
            decreases self.nodes.len() - i,
        {
            nodes.push(self.nodes[i]);
            i = i + 1;
        }
        proof {
            assert(nodes@ == self.nodes@);
        }
        MapBlockNodes { nodes }
    }
}

impl MapBlockNodes {
    /// A mapblock's node array always holds exactly one node per cell.
    pub open spec fn wf(self) -> bool {
        self@.len() == NODES_PER_BLOCK
    }

    /// Wraps a full node array; rejects one of the wrong length.
    pub fn new(nodes: Vec<MapNode>) -> (r: Option<MapBlockNodes>)
        ensures
            match r {
                Some(b) => b.wf() && b@ == nodes@,
                None => nodes@.len() != NODES_PER_BLOCK,
            },
    {
        if nodes.len() == NODES_PER_BLOCK {
            Some(MapBlockNodes { nodes })
        } else {
            None
        }
    }

    /// A mapblock holding the same node in every cell.
    pub fn filled(node: MapNode) -> (r: MapBlockNodes)
        ensures
            r.wf(),
            forall|i: int| 0 <= i < NODES_PER_BLOCK ==> r@[i] == node,
    {
        let mut nodes: Vec<MapNode> = Vec::new();
        let mut i: usize = 0;
        while i < NODES_PER_BLOCK
            invariant
                i <= NODES_PER_BLOCK,
                nodes@.len() == i,
                forall|j: int| 0 <= j < i ==> nodes@[j] == node,
            decreases NODES_PER_BLOCK - i,
        {
            nodes.push(node);
            i = i + 1;
        }
        MapBlockNodes { nodes }
    }

    /// Reads the node at an array index.
    pub fn get(&self, index: usize) -> (r: MapNode)
        requires
            self.wf(),
            index < NODES_PER_BLOCK,
        ensures
            r == self@[index as int],
    {
        self.nodes[index]
    }

    /// Overwrites the node at an array index.
    pub fn set(&mut self, index: usize, node: MapNode)
        requires
            old(self).wf(),
            index < NODES_PER_BLOCK,
        ensures
            final(self).wf(),
            final(self)@ == old(self)@.update(index as int, node),
    {
        self.nodes.set(index, node);
    }

    /// Whether every node of this mapblock is air. A quick check used to skip
    /// mesh generation for blocks that cannot produce geometry of their own.
    pub fn is_all_air(&self) -> (r: bool)
        requires
            self.wf(),
        ensures
            r <==> (forall|i: int|
                0 <= i < NODES_PER_BLOCK ==> self@[i].content_id == CONTENT_AIR),
    {
        let mut i: usize = 0;
        while i < NODES_PER_BLOCK
            invariant
                i <= NODES_PER_BLOCK,
                self.wf(),
                forall|j: int| 0 <= j < i ==> self@[j].content_id == CONTENT_AIR,
            decreases NODES_PER_BLOCK - i,
        {
            if self.nodes[i].content_id != CONTENT_AIR {
                return false;
            }
            i = i + 1;
        }
        true
    }
}

} // verus!
