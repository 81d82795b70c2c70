use vstd::prelude::*;
use crate::assoc::{assoc_map, assoc_distinct_keys, lemma_assoc_map_contains,
    lemma_assoc_map_index, lemma_assoc_map_update, lemma_assoc_map_push};
use crate::coords::BlockCoordinate;
use crate::meshgen::MapblockMesh;

verus! {

/// What one mesh result does to the table: a result for a new mapblock is
/// stored; a result for a known mapblock replaces the stored one only if its
/// submission timestamp is strictly newer, and is discarded otherwise (its
/// input was already superseded when it was computed).
pub open spec fn spec_accept(
    m: Map<BlockCoordinate, MapblockMesh>,
    r: MapblockMesh,
) -> Map<BlockCoordinate, MapblockMesh> {
    if m.contains_key(r.blockpos) {
        if r.timestamp_task_spawned > m[r.blockpos].timestamp_task_spawned {
            m.insert(r.blockpos, r)
        } else {
            m
        }
    } else {
        m.insert(r.blockpos, r)
    }
}

/// Applying a sequence of results to the table, in order.
pub open spec fn spec_accept_all(
    m: Map<BlockCoordinate, MapblockMesh>,
    s: Seq<MapblockMesh>,
) -> Map<BlockCoordinate, MapblockMesh>
    decreases s.len(),
{
    if s.len() == 0 {
        m
    } else {
        spec_accept(spec_accept_all(m, s.drop_last()), s.last())
    }
}

/// The authoritative table of renderable mapblock meshes: for each mapblock,
/// the most recent non-stale result. Results may arrive in any order; the
/// timestamp rule below is the sole mechanism that reconciles them.
pub struct RenderableMeshTable {
    entries: Vec<(BlockCoordinate, MapblockMesh)>,
}

impl View for RenderableMeshTable {
    type V = Map<BlockCoordinate, MapblockMesh>;

    closed spec fn view(&self) -> Map<BlockCoordinate, MapblockMesh> {
        assoc_map(self.entries@)
    }
}

impl RenderableMeshTable {
    pub closed spec fn wf(self) -> bool {
        &&& assoc_distinct_keys(self.entries@)
        &&& forall|i: int|
            0 <= i < self.entries@.len() ==> (#[trigger] self.entries@[i]).1.wf()
                && self.entries@[i].0 == self.entries@[i].1.blockpos
    }

    /// Returns an empty table.
    pub fn new() -> (r: RenderableMeshTable)
        ensures
            r.wf(),
            r@ == Map::<BlockCoordinate, MapblockMesh>::empty(),
    {
        RenderableMeshTable { entries: Vec::new() }
    }

    fn find(&self, blockpos: &BlockCoordinate) -> (r: Option<usize>)
        ensures
            match r {
                Some(i) => i < self.entries@.len() && self.entries@[i as int].0 == *blockpos,
                None => forall|i: int|
                    0 <= i < self.entries@.len() ==> (#[trigger] self.entries@[i]).0 != *blockpos,
            },
    {
        let mut i: usize = 0;
        while i < self.entries.len()
            invariant
                i <= self.entries@.len(),
                forall|j: int| 0 <= j < i ==> (#[trigger] self.entries@[j]).0 != *blockpos,
            decreases self.entries@.len() - i,
        {
            let (k, _) = &self.entries[i];
            if k.x == blockpos.x && k.y == blockpos.y && k.z == blockpos.z {
                return Some(i);
            }
            i = i + 1;
        }
        None
    }

    /// Looks up the stored mesh result for a mapblock.
    pub fn get(&self, blockpos: &BlockCoordinate) -> (r: Option<&MapblockMesh>)
        requires
            self.wf(),
        ensures
            match r {
                Some(m) => self@.contains_key(*blockpos) && *m == self@[*blockpos] && m.wf(),
                None => !self@.contains_key(*blockpos),
            },
    {
        proof {
            lemma_assoc_map_contains(self.entries@, *blockpos);
        }
        match self.find(blockpos) {
            Some(i) => {
                proof {
                    lemma_assoc_map_index(self.entries@, i as int);
                }
                let (_, m) = &self.entries[i];
                Some(m)
            },
            None => None,
        }
    }

    /// Merges one incoming mesh result into the table under the staleness
    /// rule: a result for a new mapblock is stored; a result for a known
    /// mapblock replaces the stored one only if its submission timestamp is
    /// strictly newer. A meshgen task for the same mapblock might have
    /// started later but finished earlier than this one; the stored, newer
    /// data must not be replaced with outdated data in that case.
    /// Returns whether the result was stored.
    pub fn insert_mapblock_mesh(&mut self, mesh: MapblockMesh) -> (accepted: bool)
        requires
            old(self).wf(),
            mesh.wf(),
        ensures
            final(self).wf(),
            final(self)@ == spec_accept(old(self)@, mesh),
            accepted <==> (!old(self)@.contains_key(mesh.blockpos)
                || mesh.timestamp_task_spawned > old(self)@[
                mesh.blockpos
            ].timestamp_task_spawned),
    {
        proof {
            lemma_assoc_map_contains(self.entries@, mesh.blockpos);
        }
        match self.find(&mesh.blockpos) {
            Some(i) => {
                proof {
                    lemma_assoc_map_index(self.entries@, i as int);
                }
                let (_, prev_mesh) = &self.entries[i];
                if mesh.timestamp_task_spawned > prev_mesh.timestamp_task_spawned {
                    proof {
                        lemma_assoc_map_update(self.entries@, i as int, mesh);
                    }
                    let blockpos = mesh.blockpos;
                    self.entries.set(i, (blockpos, mesh));
                    true
                } else {
                    false
                }
            },
            None => {
                proof {
                    lemma_assoc_map_push(self.entries@, mesh.blockpos, mesh);
                }
                let blockpos = mesh.blockpos;
                self.entries.push((blockpos, mesh));
                true
            },
        }
    }
}

/// The largest submission timestamp among a sequence of results.
pub open spec fn max_timestamp(s: Seq<MapblockMesh>) -> u64
    recommends
        s.len() > 0,
    decreases s.len(),
{
    if s.len() <= 1 {
        s[0].timestamp_task_spawned
    } else {
        let rest = max_timestamp(s.drop_last());
        if s.last().timestamp_task_spawned > rest {
            s.last().timestamp_task_spawned
        } else {
            rest
        }
    }
}

proof fn lemma_max_timestamp(s: Seq<MapblockMesh>)
    requires
        s.len() > 0,
    ensures
        exists|i: int| 0 <= i < s.len() && s[i].timestamp_task_spawned == max_timestamp(s),
        forall|i: int| 0 <= i < s.len() ==> s[i].timestamp_task_spawned <= max_timestamp(s),
    decreases s.len(),
{
    if s.len() > 1 {
        lemma_max_timestamp(s.drop_last());
        let w = choose|i: int|
            0 <= i < s.drop_last().len() && s.drop_last()[i].timestamp_task_spawned
                == max_timestamp(s.drop_last());
        if s.last().timestamp_task_spawned > max_timestamp(s.drop_last()) {
            assert(s[s.len() - 1].timestamp_task_spawned == max_timestamp(s));
        } else {
            assert(s[w].timestamp_task_spawned == max_timestamp(s));
        }
        assert forall|i: int| 0 <= i < s.len() - 1 implies s[i].timestamp_task_spawned
            <= max_timestamp(s.drop_last()) by {
            assert(s[i] == s.drop_last()[i]);
        }
    }
}

/// After a run of results for one mapblock, the table holds one of them, and
/// its timestamp is the largest submitted.
proof fn lemma_accept_all_stores_max(
    m: Map<BlockCoordinate, MapblockMesh>,
    s: Seq<MapblockMesh>,
    c: BlockCoordinate,
)
    requires
        s.len() > 0,
        forall|i: int| 0 <= i < s.len() ==> (#[trigger] s[i]).blockpos == c,
        !m.contains_key(c),
    ensures
        spec_accept_all(m, s).contains_key(c),
        exists|i: int|
            0 <= i < s.len() && spec_accept_all(m, s)[c] == s[i]
                && s[i].timestamp_task_spawned == max_timestamp(s),
    decreases s.len(),
{
    if s.len() == 1 {
        assert(spec_accept_all(m, s.drop_last()) == m);
        assert(spec_accept_all(m, s)[c] == s[0]);
    } else {
        lemma_accept_all_stores_max(m, s.drop_last(), c);
        let t = spec_accept_all(m, s.drop_last());
        let i = choose|i: int|
            0 <= i < s.drop_last().len() && t[c] == s.drop_last()[i]
                && s.drop_last()[i].timestamp_task_spawned == max_timestamp(s.drop_last());
        assert(s[i] == s.drop_last()[i]);
        if s.last().timestamp_task_spawned > t[c].timestamp_task_spawned {
            assert(spec_accept_all(m, s)[c] == s[s.len() - 1]);
        } else {
            assert(spec_accept_all(m, s)[c] == s[i]);
            assert(s[i].timestamp_task_spawned == max_timestamp(s));
        }
    }
}

/// Reconciler monotonicity: for any sequence of mesh results for the same
/// mapblock, merged into a table that does not yet hold that mapblock, in any
/// completion order (any permutation carries the same set of timestamps), the
/// table ends up holding exactly the result whose submission timestamp is the
/// maximum among those submitted. `j` names that result; timestamps are
/// pairwise distinct, as those of one mapblock's submissions are.
pub proof fn lemma_reconciler_monotonicity(
    m: Map<BlockCoordinate, MapblockMesh>,
    s: Seq<MapblockMesh>,
    c: BlockCoordinate,
    j: int,
)
    requires
        s.len() > 0,
        forall|i: int| 0 <= i < s.len() ==> (#[trigger] s[i]).blockpos == c,
        !m.contains_key(c),
        forall|i1: int, i2: int|
            0 <= i1 < i2 < s.len() ==> s[i1].timestamp_task_spawned
                != s[i2].timestamp_task_spawned,
        0 <= j < s.len(),
        forall|i: int|
            0 <= i < s.len() ==> (#[trigger] s[i]).timestamp_task_spawned
                <= s[j].timestamp_task_spawned,
    ensures
        spec_accept_all(m, s).contains_key(c),
        spec_accept_all(m, s)[c] == s[j],
{
    lemma_accept_all_stores_max(m, s, c);
    lemma_max_timestamp(s);
    let i = choose|i: int|
        0 <= i < s.len() && spec_accept_all(m, s)[c] == s[i] && s[i].timestamp_task_spawned
            == max_timestamp(s);
    assert(s[j].timestamp_task_spawned <= max_timestamp(s));
    assert(s[i].timestamp_task_spawned <= s[j].timestamp_task_spawned);
    if i != j {
        assert(s[i].timestamp_task_spawned != s[j].timestamp_task_spawned);
        assert(false);
    }
}

} // verus!
