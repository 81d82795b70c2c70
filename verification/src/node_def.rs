use vstd::prelude::*;
use crate::assoc::{assoc_map, lemma_assoc_map_contains, lemma_assoc_map_last_index,
    lemma_assoc_map_push};
use crate::block::{CONTENT_UNKNOWN, CONTENT_AIR, CONTENT_IGNORE};

verus! {

/// How a node is drawn. Mesh generation only carves cuboid faces: `AirLike`
/// nodes are classified empty and produce no geometry, and every other draw
/// type is out of scope for refined shapes and is treated as a solid cuboid
/// for culling purposes, so it occludes its neighbors' faces.
#[derive(Clone, Copy, PartialEq, Eq, Structural, Debug)]
pub enum DrawType {
    Normal,
    AirLike,
    Liquid,
    FlowingLiquid,
    GlassLike,
    AllFaces,
    AllFacesOptional,
    TorchLike,
    SignLike,
    PlantLike,
    FenceLike,
    RailLike,
    NodeBox,
    GlassLikeFramed,
    FireLike,
    GlassLikeFramedOptional,
    Mesh,
    PlantLikeRooted,
}

/// What mesh generation reads of one content definition: the draw type and
/// one texture index per face, already resolved by the session's texture
/// collaborator. Face order matches the neighbor offset table.
#[derive(Clone, Copy, PartialEq, Eq, Debug)]
pub struct NodeDef {
    pub drawtype: DrawType,
    pub tiles: [u32; 6],
}

/// Inserting the entries of `s` into `m`, in order.
pub open spec fn insert_all(m: Map<u16, NodeDef>, s: Seq<(u16, NodeDef)>) -> Map<u16, NodeDef>
    decreases s.len(),
{
    if s.len() == 0 {
        m
    } else {
        insert_all(m, s.drop_last()).insert(s.last().0, s.last().1)
    }
}

/// The definition used for a content identifier: its own if one is known,
/// otherwise the fallback definition for unknown content.
pub open spec fn spec_def_of(m: Map<u16, NodeDef>, content_id: u16) -> NodeDef {
    if m.contains_key(content_id) {
        m[content_id]
    } else {
        m[CONTENT_UNKNOWN]
    }
}

/// Holds the node content definitions announced by the server, plus the three
/// built-in definitions (unknown, air, ignore) that are never sent over the
/// network and must be provided by the client itself.
pub struct NodeDefManager {
    entries: Vec<(u16, NodeDef)>,
}

impl View for NodeDefManager {
    type V = Map<u16, NodeDef>;

    closed spec fn view(&self) -> Map<u16, NodeDef> {
        assoc_map(self.entries@)
    }
}

/// The built-in fallback definition for unknown content: drawn as a solid
/// cube showing the designated unknown texture on every face.
pub open spec fn spec_unknown_def(unknown_tile: u32) -> NodeDef {
    NodeDef { drawtype: DrawType::Normal, tiles: [unknown_tile, unknown_tile, unknown_tile, unknown_tile, unknown_tile, unknown_tile] }
}

/// The built-in definition for air and ignore: no geometry.
pub open spec fn spec_airlike_def(unknown_tile: u32) -> NodeDef {
    NodeDef { drawtype: DrawType::AirLike, tiles: [unknown_tile, unknown_tile, unknown_tile, unknown_tile, unknown_tile, unknown_tile] }
}

/// The three built-in definitions as a base map.
pub open spec fn spec_builtin_defs(unknown_tile: u32) -> Map<u16, NodeDef> {
    Map::empty().insert(CONTENT_UNKNOWN, spec_unknown_def(unknown_tile)).insert(
        CONTENT_AIR,
        spec_airlike_def(unknown_tile),
    ).insert(CONTENT_IGNORE, spec_airlike_def(unknown_tile))
}

impl NodeDefManager {
    /// The fallback definition is always present, so lookups with fallback
    /// always resolve.
    pub closed spec fn wf(self) -> bool {
        self@.contains_key(CONTENT_UNKNOWN)
    }

    /// Creates a new NodeDefManager from definitions received over the
    /// network. The unknown, air and ignore definitions are not sent by the
    /// server; they are initialized here, with every face of the unknown
    /// definition showing the texture at `unknown_tile`. Network entries
    /// are applied afterwards, in order, and may shadow the built-ins.
    pub fn from_network(data: Vec<(u16, NodeDef)>, unknown_tile: u32) -> (r: NodeDefManager)
        ensures
            r.wf(),
            r@ == insert_all(spec_builtin_defs(unknown_tile), data@),
    {
        let unknown = NodeDef {
            drawtype: DrawType::Normal,
            tiles: [unknown_tile, unknown_tile, unknown_tile, unknown_tile, unknown_tile, unknown_tile],
        };
        let airlike = NodeDef {
            drawtype: DrawType::AirLike,
            tiles: [unknown_tile, unknown_tile, unknown_tile, unknown_tile, unknown_tile, unknown_tile],
        };
        let mut entries: Vec<(u16, NodeDef)> = Vec::new();
        proof {
            lemma_assoc_map_push(entries@, CONTENT_UNKNOWN, unknown);
        }
        entries.push((CONTENT_UNKNOWN, unknown));
        proof {
            lemma_assoc_map_push(entries@, CONTENT_AIR, airlike);
        }
        entries.push((CONTENT_AIR, airlike));
        proof {
            lemma_assoc_map_push(entries@, CONTENT_IGNORE, airlike);
        }
        entries.push((CONTENT_IGNORE, airlike));
        assert(assoc_map(entries@) == spec_builtin_defs(unknown_tile));

        let mut i: usize = 0;
        while i < data.len()
            invariant
                i <= data@.len(),
                assoc_map(entries@) == insert_all(
                    spec_builtin_defs(unknown_tile),
                    data@.subrange(0, i as int),
                ),
            decreases data@.len() - i,
        {
            let (k, v) = data[i];
            proof {
                lemma_assoc_map_push(entries@, k, v);
                assert(data@.subrange(0, i + 1).drop_last() =~= data@.subrange(0, i as int));
                assert(data@.subrange(0, i + 1).last() == (k, v));
            }
            entries.push((k, v));
            i = i + 1;
        }
        proof {
            assert(data@.subrange(0, data@.len() as int) =~= data@);
            lemma_insert_all_contains_unknown(spec_builtin_defs(unknown_tile), data@);
        }
        NodeDefManager { entries }
    }

    /// Looks up the definition for a content identifier.
    pub fn get(&self, content_id: u16) -> (r: Option<&NodeDef>)
        ensures
            match r {
                Some(d) => self@.contains_key(content_id) && *d == self@[content_id],
                None => !self@.contains_key(content_id),
            },
    {
        proof {
            lemma_assoc_map_contains(self.entries@, content_id);
        }
        let mut i: usize = self.entries.len();
        while i > 0
            invariant
                i <= self.entries@.len(),
                forall|j: int|
                    i <= j < self.entries@.len() ==> (#[trigger] self.entries@[j]).0 != content_id,
            decreases i,
        {
            i = i - 1;
            let (k, _) = self.entries[i];
            if k == content_id {
                proof {
                    lemma_assoc_map_last_index(self.entries@, i as int, content_id);
                }
                let (_, d) = &self.entries[i];
                return Some(d);
            }
        }
        None
    }

    /// Looks up the definition for a content identifier, falling back to the
    /// built-in unknown definition for content the server never defined.
    pub fn get_with_fallback(&self, content_id: u16) -> (r: &NodeDef)
        requires
            self.wf(),
        ensures
            *r == spec_def_of(self@, content_id),
    {
        match self.get(content_id) {
            Some(d) => d,
            None => match self.get(CONTENT_UNKNOWN) {
                Some(d) => d,
                None => unreached(),
            },
        }
    }
}

/// Inserting entries never removes a key.
proof fn lemma_insert_all_contains_unknown(m: Map<u16, NodeDef>, s: Seq<(u16, NodeDef)>)
    requires
        m.contains_key(CONTENT_UNKNOWN),
    ensures
        insert_all(m, s).contains_key(CONTENT_UNKNOWN),
    decreases s.len(),
{
    if s.len() > 0 {
        lemma_insert_all_contains_unknown(m, s.drop_last());
    }
}

} // verus!
