use vstd::prelude::*;
use vstd::string::StringExecFns;
use crate::coords::{BlockCoordinate, VoxelCoordinate, NODES_PER_BLOCK, neighbor_dir};
use crate::block::{MapNode, MapBlockNodes, CONTENT_AIR};
use crate::map::{LuantiMap, spec_block_neighbor};
use crate::node_def::{NodeDef, NodeDefManager, insert_all, spec_builtin_defs};
use crate::meshgen::{MeshgenTask, MeshgenWork};
use crate::media::{cache_file_name, base64_standard_decode, hex_of};

verus! {

/// The connection's handshake progress. States only ever move forward:
/// `Connected` (transport established, initial handshake sent), `AuthSent`
/// (registration credentials sent), `Init2Sent` (session initialization
/// sent, definitions and media announcements expected), `ReadySent` (client
/// declared ready; world data flows).
#[derive(Clone, Copy, PartialEq, Eq, Structural, Debug)]
pub enum ClientState {
    Connected,
    AuthSent,
    Init2Sent,
    ReadySent,
}

/// Position of a state in the handshake's forward order.
pub open spec fn state_rank(s: ClientState) -> int {
    match s {
        ClientState::Connected => 0,
        ClientState::AuthSent => 1,
        ClientState::Init2Sent => 2,
        ClientState::ReadySent => 3,
    }
}

/// A player position sample as it crosses this client: the raw bit patterns
/// of the wire's 32-bit float fields. The state machine routes these values
/// unchanged; all unit conversion happens at the network and camera edges.
#[derive(Clone, Copy, PartialEq, Eq, Structural, Debug)]
pub struct PlayerPosBits {
    pub pos_x: u32,
    pub pos_y: u32,
    pub pos_z: u32,
    pub yaw: u32,
    pub pitch: u32,
}

/// One file of the server's media announcement: a file name and the base64
/// form of the file's content hash.
#[derive(Debug)]
pub struct MediaAnnouncement {
    pub name: String,
    pub sha1_base64: String,
}

/// A media lookup the client must perform against its local cache: the file
/// is expected under `cache_file_name` (None when the announced hash was not
/// valid base64, which is recovered from locally and only costs the file).
#[derive(Debug)]
pub struct MediaResolve {
    pub name: String,
    pub cache_file_name: Option<String>,
}

/// The inbound server commands this client consumes. Everything else the
/// protocol can carry is `Other` and is ignored.
#[derive(Debug)]
pub enum ToClientCommand {
    Hello { first_srp: bool },
    AuthAccept,
    Nodedef { defs: Vec<(u16, NodeDef)> },
    AnnounceMedia { files: Vec<MediaAnnouncement> },
    MovePlayer { pos: PlayerPosBits },
    Blockdata { pos: (i16, i16, i16), nodes: MapBlockNodes },
    Addnode { pos: VoxelCoordinate, node: MapNode },
    Removenode { pos: VoxelCoordinate },
    Other,
}

/// Mapblock data arriving over the wire always holds a full node array.
pub open spec fn command_wf(c: ToClientCommand) -> bool {
    match c {
        ToClientCommand::Blockdata { pos, nodes } => nodes.wf(),
        _ => true,
    }
}

/// The outbound client commands. The fields mirror what this client sends:
/// fixed protocol versions, empty registration credentials (password
/// authentication is deliberately not implemented), and its version string.
#[derive(Debug)]
pub enum ToServerCommand {
    Init {
        user_name: String,
        serialization_ver_max: u8,
        supp_compr_modes: u16,
        min_net_proto_version: u16,
        max_net_proto_version: u16,
    },
    FirstSrp,
    Init2 { lang: String },
    ClientReady {
        major_ver: u8,
        minor_ver: u8,
        patch_ver: u8,
        reserved: u8,
        full_ver: String,
        formspec_ver: u16,
    },
    GotBlocks { pos: (i16, i16, i16) },
    Playerpos { pos: PlayerPosBits },
}

/// What the connection task must do in response to one inbound command:
/// send a command to the server, forward a player position to the camera
/// collaborator, resolve a media file against the local cache, or hand a
/// planned mesh generation task to the worker pool.
#[derive(Debug)]
pub enum Action {
    Send(ToServerCommand),
    ForwardPlayerPos(PlayerPosBits),
    ResolveMedia(MediaResolve),
    SpawnMeshgen(MeshgenTask),
}

/// Failures that end the session.
#[derive(Clone, Copy, PartialEq, Eq, Structural, Debug)]
pub enum ClientError {
    /// The server offered no authentication method this client implements.
    UnsupportedAuth,
    /// The server sent mapblock data for a position outside the valid range.
    InvalidBlockPosition,
}

/// The decimal digit character for a value below ten.
pub open spec fn dec_digit(n: int) -> char {
    if n == 0 {
        '0'
    } else if n == 1 {
        '1'
    } else if n == 2 {
        '2'
    } else if n == 3 {
        '3'
    } else if n == 4 {
        '4'
    } else if n == 5 {
        '5'
    } else if n == 6 {
        '6'
    } else if n == 7 {
        '7'
    } else if n == 8 {
        '8'
    } else {
        '9'
    }
}

/// The decimal form of a nonnegative number, most significant digit first,
/// without leading zeros.
pub open spec fn spec_decimal(n: int) -> Seq<char>
    decreases n,
{
    if n < 10 {
        seq![dec_digit(n)]
    } else {
        spec_decimal(n / 10).push(dec_digit(n % 10))
    }
}

fn dec_digit_str(d: u32) -> (r: &'static str)
    requires
        d < 10,
    ensures
        r@ == seq![dec_digit(d as int)],
{
    proof {
        reveal_strlit("0");
        reveal_strlit("1");
        reveal_strlit("2");
        reveal_strlit("3");
        reveal_strlit("4");
        reveal_strlit("5");
        reveal_strlit("6");
        reveal_strlit("7");
        reveal_strlit("8");
        reveal_strlit("9");
    }
    let r = match d {
        0 => "0",
        1 => "1",
        2 => "2",
        3 => "3",
        4 => "4",
        5 => "5",
        6 => "6",
        7 => "7",
        8 => "8",
        _ => "9",
    };
    proof {
        assert(r@ =~= seq![dec_digit(d as int)]);
    }
    r
}

/// Formats a small number in decimal.
fn decimal_string(n: u32) -> (r: String)
    requires
        n < 1000,
    ensures
        r@ == spec_decimal(n as int),
{
    if n < 10 {
        let r = dec_digit_str(n).to_owned();
        proof {
            assert((n as int) < 10);
            assert(r@ == seq![dec_digit(n as int)]);
            assert(spec_decimal(n as int) == seq![dec_digit(n as int)]);
            assert(r@ =~= spec_decimal(n as int));
        }
        r
    } else if n < 100 {
        let mut r = dec_digit_str(n / 10).to_owned();
        r.append(dec_digit_str(n % 10));
        proof {
            assert((n as int) / 10 < 10);
            assert(spec_decimal(n as int) == spec_decimal(n as int / 10).push(
                dec_digit(n as int % 10),
            ));
            assert(spec_decimal(n as int / 10) == seq![dec_digit(n as int / 10)]);
            assert(r@ =~= spec_decimal(n as int));
        }
        r
    } else {
        let mut r = dec_digit_str(n / 100).to_owned();
        r.append(dec_digit_str((n / 10) % 10));
        r.append(dec_digit_str(n % 10));
        proof {
            let ni = n as int;
            assert((ni / 10) / 10 == ni / 100) by (nonlinear_arith);
            assert(ni / 10 >= 10);
            assert(ni / 10 < 100);
            assert(ni / 100 < 10);
            assert(spec_decimal(ni) == spec_decimal(ni / 10).push(dec_digit(ni % 10)));
            assert(spec_decimal(ni / 10) == spec_decimal(ni / 100).push(dec_digit((ni / 10) % 10)));
            assert(spec_decimal(ni / 100) == seq![dec_digit(ni / 100)]);
            assert(r@ =~= spec_decimal(ni));
        }
        r
    }
}

/// Relies on rand::rng and RngExt::random_range over the fixed range 0..1000:
/// the drawn suffix is below 1000. Nothing more is promised of a random
/// value, and the range is never empty, so the call does not panic.
#[verifier::external_body]
pub fn random_name_suffix() -> (r: u32)
    ensures
        r < 1000,
{
    rand::RngExt::random_range(&mut rand::rng(), 0..1000u32)
}

/// The handshake's opening command: a guest user name of "test" followed by
/// the given suffix, the serialization version and the one network protocol
/// version this client speaks.
pub fn make_init_command(suffix: u32) -> (r: ToServerCommand)
    requires
        suffix < 1000,
    ensures
        match r {
            ToServerCommand::Init {
                user_name,
                serialization_ver_max,
                supp_compr_modes,
                min_net_proto_version,
                max_net_proto_version,
            } => {
                &&& user_name@ == "test"@ + spec_decimal(suffix as int)
                &&& serialization_ver_max == 29u8
                &&& supp_compr_modes == 0u16
                &&& min_net_proto_version == 46u16
                &&& max_net_proto_version == 46u16
            },
            _ => false,
        },
{
    let mut user_name = "test".to_owned();
    user_name.append(decimal_string(suffix).as_str());
    ToServerCommand::Init {
        user_name,
        serialization_ver_max: 29,
        supp_compr_modes: 0,
        min_net_proto_version: 46,
        max_net_proto_version: 46,
    }
}

/// The mapblocks to remesh after a change to mapblock `c`, reading map state
/// `m`: `c` itself, then every face-adjacent neighbor of `c` present in the
/// map, in face order. Resubmitting present neighbors is what retroactively
/// completes faces that an earlier mesh suppressed toward a then-missing
/// mapblock.
pub open spec fn spec_remesh_targets_upto(
    m: Map<BlockCoordinate, Seq<MapNode>>,
    c: BlockCoordinate,
    f: int,
) -> Seq<BlockCoordinate>
    decreases f,
{
    if f <= 0 {
        seq![c]
    } else {
        let prev = spec_remesh_targets_upto(m, c, f - 1);
        match spec_block_neighbor(c, f - 1) {
            Some(n) => if m.contains_key(n) {
                prev.push(n)
            } else {
                prev
            },
            None => prev,
        }
    }
}

/// The full remesh list: the mapblock and its present neighbors.
pub open spec fn spec_remesh_targets(
    m: Map<BlockCoordinate, Seq<MapNode>>,
    c: BlockCoordinate,
) -> Seq<BlockCoordinate> {
    spec_remesh_targets_upto(m, c, 6)
}

proof fn lemma_remesh_targets_len(m: Map<BlockCoordinate, Seq<MapNode>>, c: BlockCoordinate, f: int)
    requires
        0 <= f <= 6,
    ensures
        1 <= spec_remesh_targets_upto(m, c, f).len() <= 1 + f,
    decreases f,
{
    if f > 0 {
        lemma_remesh_targets_len(m, c, f - 1);
    }
}

/// A planned meshgen task reflects map state `m`: its fast path is taken
/// exactly for an all-air mapblock, and otherwise its snapshot holds the
/// mapblock's nodes and, per face, the nodes of exactly the neighbors present
/// in `m`.
pub open spec fn spec_task_matches_map(
    t: MeshgenTask,
    m: Map<BlockCoordinate, Seq<MapNode>>,
) -> bool {
    &&& m.contains_key(t.blockpos)
    &&& match t.work {
        MeshgenWork::Empty => forall|i: int|
            0 <= i < NODES_PER_BLOCK ==> (#[trigger] m[t.blockpos][i]).content_id == CONTENT_AIR,
        MeshgenWork::Generate(d) => {
            &&& d.spec_blockpos() == t.blockpos
            &&& d.spec_center() == m[t.blockpos]
            &&& !(forall|i: int|
                0 <= i < NODES_PER_BLOCK ==> (#[trigger] m[t.blockpos][i]).content_id
                    == CONTENT_AIR)
            &&& forall|f: int|
                0 <= f < 6 ==> #[trigger] d.spec_neighbor(f) == (match spec_block_neighbor(
                    t.blockpos,
                    f,
                ) {
                    Some(n) => if m.contains_key(n) {
                        Some(m[n])
                    } else {
                        None
                    },
                    None => None,
                })
        },
    }
}

/// `a` is the meshgen action for mapblock `blockpos` with submission
/// timestamp `ts`, planned against map state `m`.
pub open spec fn spec_is_mesh_action(
    a: Action,
    m: Map<BlockCoordinate, Seq<MapNode>>,
    blockpos: BlockCoordinate,
    ts: int,
) -> bool {
    match a {
        Action::SpawnMeshgen(t) => {
            &&& t.blockpos == blockpos
            &&& t.timestamp_task_spawned == ts
            &&& t.wf()
            &&& spec_task_matches_map(t, m)
        },
        _ => false,
    }
}

/// Drives the handshake with the server and, once ready, dispatches inbound
/// world updates into the map and the mesh pipeline and routes player
/// positions. Owns the map exclusively: it is the single writer, and mesh
/// workers only ever see snapshots.
pub struct LuantiClientRunner {
    state: ClientState,
    map: LuantiMap,
    node_def: Option<NodeDefManager>,
    next_timestamp: u64,
    unknown_tile: u32,
}

impl LuantiClientRunner {
    pub closed spec fn spec_state(self) -> ClientState {
        self.state
    }

    pub closed spec fn spec_map(self) -> Map<BlockCoordinate, Seq<MapNode>> {
        self.map@
    }

    pub closed spec fn spec_node_def(self) -> Option<NodeDefManager> {
        self.node_def
    }

    pub closed spec fn spec_next_timestamp(self) -> u64 {
        self.next_timestamp
    }

    pub closed spec fn spec_unknown_tile(self) -> u32 {
        self.unknown_tile
    }

    pub closed spec fn wf(self) -> bool {
        &&& self.map.wf()
        &&& match self.node_def {
            Some(nd) => nd.wf(),
            None => true,
        }
        &&& self.state == ClientState::ReadySent ==> self.node_def is Some
    }

    /// A fresh connection: just connected, no world data, no definitions.
    /// `unknown_tile` is the session's texture index for the unknown-node
    /// texture, assigned by the texture collaborator.
    pub fn new(unknown_tile: u32) -> (r: LuantiClientRunner)
        ensures
            r.wf(),
            r.spec_state() == ClientState::Connected,
            r.spec_map() == Map::<BlockCoordinate, Seq<MapNode>>::empty(),
            r.spec_node_def() is None,
            r.spec_next_timestamp() == 0,
            r.spec_unknown_tile() == unknown_tile,
    {
        LuantiClientRunner {
            state: ClientState::Connected,
            map: LuantiMap::new(),
            node_def: None,
            next_timestamp: 0,
            unknown_tile,
        }
    }

    pub fn state(&self) -> (r: ClientState)
        ensures
            r == self.spec_state(),
    {
        self.state
    }

    /// The submission timestamp the next planned mesh task will carry.
    pub fn next_timestamp(&self) -> (r: u64)
        ensures
            r == self.spec_next_timestamp(),
    {
        self.next_timestamp
    }

    pub fn map(&self) -> (r: &LuantiMap)
        requires
            self.wf(),
        ensures
            r@ == self.spec_map(),
            r.wf(),
    {
        &self.map
    }

    pub fn node_def(&self) -> (r: Option<&NodeDefManager>)
        requires
            self.wf(),
        ensures
            match r {
                Some(nd) => self.spec_node_def() == Some(*nd) && nd.wf(),
                None => self.spec_node_def() is None,
            },
    {
        self.node_def.as_ref()
    }

    /// Plans remeshing for a changed mapblock: the mapblock itself and all
    /// face-adjacent neighbors currently present in the map, each with a
    /// fresh submission timestamp, appended to `actions` in face order.
    fn generate_mapblock_with_neighbors(
        &mut self,
        blockpos: BlockCoordinate,
        actions: &mut Vec<Action>,
    )
        requires
            old(self).wf(),
            blockpos.wf(),
            old(self).spec_map().contains_key(blockpos),
            old(self).spec_next_timestamp() + 7 <= u64::MAX,
        ensures
            final(self).wf(),
            final(self).spec_state() == old(self).spec_state(),
            final(self).spec_map() == old(self).spec_map(),
            final(self).spec_node_def() == old(self).spec_node_def(),
            final(self).spec_unknown_tile() == old(self).spec_unknown_tile(),
            final(self).spec_next_timestamp() == old(self).spec_next_timestamp()
                + spec_remesh_targets(old(self).spec_map(), blockpos).len(),
            final(actions)@.len() == old(actions)@.len() + spec_remesh_targets(
                old(self).spec_map(),
                blockpos,
            ).len(),
            forall|k: int| 0 <= k < old(actions)@.len() ==> final(actions)@[k] == old(actions)@[k],
            forall|k: int|
                0 <= k < spec_remesh_targets(old(self).spec_map(), blockpos).len()
                    ==> spec_is_mesh_action(
                    #[trigger] final(actions)@[old(actions)@.len() + k],
                    old(self).spec_map(),
                    spec_remesh_targets(old(self).spec_map(), blockpos)[k],
                    old(self).spec_next_timestamp() + k,
                ),
    {
        let ghost m = self.map@;
        let ghost base = actions@.len() as int;
        let ghost ts0 = self.next_timestamp as int;

        let ts = self.next_timestamp;
        let center_block = match self.map.get_block(&blockpos) {
            Some(b) => b,
            None => unreached(),
        };
        let task = MeshgenTask::new(&self.map, blockpos, center_block, ts);
        actions.push(Action::SpawnMeshgen(task));
        self.next_timestamp = ts + 1;
        proof {
            lemma_remesh_targets_len(m, blockpos, 6);
            assert(spec_remesh_targets_upto(m, blockpos, 0) =~= seq![blockpos]);
        }

        let mut f: usize = 0;
        while f < 6
            invariant
                f <= 6,
                self.wf(),
                blockpos.wf(),
                self.map@ == m,
                self.state == old(self).spec_state(),
                self.node_def == old(self).spec_node_def(),
                self.unknown_tile == old(self).spec_unknown_tile(),
                ts0 == old(self).spec_next_timestamp(),
                base == old(actions)@.len(),
                ts0 + 7 <= u64::MAX,
                self.next_timestamp as int == ts0 + spec_remesh_targets_upto(
                    m,
                    blockpos,
                    f as int,
                ).len(),
                spec_remesh_targets_upto(m, blockpos, f as int).len() <= 1 + f,
                actions@.len() == base + spec_remesh_targets_upto(m, blockpos, f as int).len(),
                forall|k: int| 0 <= k < base ==> actions@[k] == old(actions)@[k],
                forall|k: int|
                    0 <= k < spec_remesh_targets_upto(m, blockpos, f as int).len()
                        ==> spec_is_mesh_action(
                        #[trigger] actions@[base + k],
                        m,
                        spec_remesh_targets_upto(m, blockpos, f as int)[k],
                        ts0 + k,
                    ),
            decreases 6 - f,
        {
            proof {
                lemma_remesh_targets_len(m, blockpos, f as int);
            }
            let dir = neighbor_dir(f);
            match blockpos.checked_add(dir) {
                Some(n_blockpos) => {
                    match self.map.get_block(&n_blockpos) {
                        Some(n_block) => {
                            let n_ts = self.next_timestamp;
                            let n_task = MeshgenTask::new(&self.map, n_blockpos, n_block, n_ts);
                            actions.push(Action::SpawnMeshgen(n_task));
                            self.next_timestamp = n_ts + 1;
                        },
                        None => {},
                    }
                },
                None => {},
            }
            f = f + 1;
        }
        proof {
            assert(spec_remesh_targets(m, blockpos) == spec_remesh_targets_upto(m, blockpos, 6));
        }
    }

    /// Routes one inbound server command: advances the handshake, updates the
    /// map, and plans the follow-up actions. A command that is invalid for
    /// the current state is ignored and the connection continues; the two
    /// `ClientError` cases end the session. The state never moves backwards.
    pub fn process_network_command(&mut self, command: ToClientCommand) -> (r: Result<
        Vec<Action>,
        ClientError,
    >)
        requires
            old(self).wf(),
            command_wf(command),
            old(self).spec_next_timestamp() + 7 <= u64::MAX,
        ensures
            final(self).wf(),
            state_rank(final(self).spec_state()) >= state_rank(old(self).spec_state()),
            final(self).spec_unknown_tile() == old(self).spec_unknown_tile(),
            match command {
                ToClientCommand::Hello { first_srp } => {
                    if old(self).spec_state() != ClientState::Connected {
                        spec_ignored(*old(self), *final(self), r)
                    } else if first_srp {
                        &&& r matches Ok(a) && a@ =~= seq![
                            Action::Send(ToServerCommand::FirstSrp),
                        ]
                        &&& final(self).spec_state() == ClientState::AuthSent
                        &&& spec_rest_unchanged(*old(self), *final(self))
                    } else {
                        &&& r matches Err(e) && e == ClientError::UnsupportedAuth
                        &&& spec_unchanged(*old(self), *final(self))
                    }
                },
                ToClientCommand::AuthAccept => {
                    if old(self).spec_state() != ClientState::AuthSent {
                        spec_ignored(*old(self), *final(self), r)
                    } else {
                        &&& r matches Ok(a) && a@.len() == 1 && (a@[0] matches Action::Send(c)
                            && c matches ToServerCommand::Init2 { lang } && lang@ == "en"@)
                        &&& final(self).spec_state() == ClientState::Init2Sent
                        &&& spec_rest_unchanged(*old(self), *final(self))
                    }
                },
                ToClientCommand::Nodedef { defs } => {
                    if old(self).spec_state() != ClientState::Init2Sent || old(self).spec_node_def()
                        is Some {
                        spec_ignored(*old(self), *final(self), r)
                    } else {
                        &&& r matches Ok(a) && a@.len() == 0
                        &&& final(self).spec_node_def() matches Some(nd) && nd@ == insert_all(
                            spec_builtin_defs(old(self).spec_unknown_tile()),
                            defs@,
                        ) && nd.wf()
                        &&& final(self).spec_state() == old(self).spec_state()
                        &&& final(self).spec_map() == old(self).spec_map()
                        &&& final(self).spec_next_timestamp() == old(self).spec_next_timestamp()
                    }
                },
                ToClientCommand::AnnounceMedia { files } => {
                    if old(self).spec_state() != ClientState::Init2Sent || old(self).spec_node_def()
                        is None {
                        spec_ignored(*old(self), *final(self), r)
                    } else {
                        &&& r matches Ok(a) && {
                            &&& a@.len() == files@.len() + 1
                            &&& forall|k: int|
                                0 <= k < files@.len() ==> spec_is_resolve_action(
                                    #[trigger] a@[k],
                                    files@[k].name@,
                                    files@[k].sha1_base64@,
                                )
                            &&& (a@[files@.len() as int] matches Action::Send(c)
                                && c matches ToServerCommand::ClientReady {
                                major_ver,
                                minor_ver,
                                patch_ver,
                                reserved,
                                full_ver,
                                formspec_ver,
                            } && major_ver == 0u8 && minor_ver == 1u8 && patch_ver == 0u8
                                && reserved == 0u8 && full_ver@ == "Cubetonic 0.1.0"@
                                && formspec_ver == 8u16)
                        }
                        &&& final(self).spec_state() == ClientState::ReadySent
                        &&& spec_rest_unchanged(*old(self), *final(self))
                    }
                },
                ToClientCommand::MovePlayer { pos } => {
                    if old(self).spec_state() != ClientState::ReadySent {
                        spec_ignored(*old(self), *final(self), r)
                    } else {
                        &&& r matches Ok(a) && a@ =~= seq![Action::ForwardPlayerPos(pos)]
                        &&& spec_unchanged(*old(self), *final(self))
                    }
                },
                ToClientCommand::Blockdata { pos, nodes } => {
                    if old(self).spec_state() != ClientState::ReadySent {
                        spec_ignored(*old(self), *final(self), r)
                    } else {
                        let b = BlockCoordinate { x: pos.0, y: pos.1, z: pos.2 };
                        if !b.wf() {
                            &&& r matches Err(e) && e == ClientError::InvalidBlockPosition
                            &&& spec_unchanged(*old(self), *final(self))
                        } else {
                            let m = old(self).spec_map().insert(b, nodes@);
                            let targets = spec_remesh_targets(m, b);
                            &&& final(self).spec_map() == m
                            &&& r matches Ok(a) && {
                                &&& a@.len() == 1 + targets.len()
                                &&& a@[0] == Action::Send(ToServerCommand::GotBlocks { pos })
                                &&& forall|k: int|
                                    0 <= k < targets.len() ==> spec_is_mesh_action(
                                        #[trigger] a@[1 + k],
                                        m,
                                        targets[k],
                                        old(self).spec_next_timestamp() + k,
                                    )
                            }
                            &&& final(self).spec_next_timestamp() == old(
                                self,
                            ).spec_next_timestamp() + targets.len()
                            &&& final(self).spec_state() == old(self).spec_state()
                            &&& final(self).spec_node_def() == old(self).spec_node_def()
                        }
                    }
                },
                ToClientCommand::Addnode { pos, node } => spec_set_node_outcome(
                    *old(self),
                    *final(self),
                    r,
                    pos,
                    node,
                ),
                ToClientCommand::Removenode { pos } => spec_set_node_outcome(
                    *old(self),
                    *final(self),
                    r,
                    pos,
                    MapNode { content_id: CONTENT_AIR, param1: 0u8, param2: 0u8 },
                ),
                ToClientCommand::Other => spec_ignored(*old(self), *final(self), r),
            },
    {
        match command {
            ToClientCommand::Hello { first_srp } => {
                if self.state != ClientState::Connected {
                    Ok(Vec::new())
                } else if first_srp {
                    // Register with empty credentials; logging in would
                    // require implementing SRP, which is out of scope.
                    self.state = ClientState::AuthSent;
                    let mut a: Vec<Action> = Vec::new();
                    a.push(Action::Send(ToServerCommand::FirstSrp));
                    Ok(a)
                } else {
                    Err(ClientError::UnsupportedAuth)
                }
            },
            ToClientCommand::AuthAccept => {
                if self.state != ClientState::AuthSent {
                    Ok(Vec::new())
                } else {
                    self.state = ClientState::Init2Sent;
                    let mut a: Vec<Action> = Vec::new();
                    a.push(Action::Send(ToServerCommand::Init2 { lang: "en".to_owned() }));
                    Ok(a)
                }
            },
            ToClientCommand::Nodedef { defs } => {
                if self.state != ClientState::Init2Sent || self.node_def.is_some() {
                    Ok(Vec::new())
                } else {
                    self.node_def = Some(NodeDefManager::from_network(defs, self.unknown_tile));
                    Ok(Vec::new())
                }
            },
            ToClientCommand::AnnounceMedia { files } => {
                if self.state != ClientState::Init2Sent || self.node_def.is_none() {
                    Ok(Vec::new())
                } else {
                    let mut a: Vec<Action> = Vec::new();
                    let mut i: usize = 0;
                    while i < files.len()
                        invariant
                            i <= files@.len(),
                            a@.len() == i,
                            forall|k: int|
                                0 <= k < i ==> spec_is_resolve_action(
                                    #[trigger] a@[k],
                                    files@[k].name@,
                                    files@[k].sha1_base64@,
                                ),
                        decreases files@.len() - i,
                    {
                        let name = files[i].name.clone();
                        let cache = match cache_file_name(files[i].sha1_base64.as_str()) {
                            Ok(n) => Some(n),
                            Err(_) => None,
                        };
                        a.push(Action::ResolveMedia(MediaResolve { name, cache_file_name: cache }));
                        i = i + 1;
                    }
                    a.push(
                        Action::Send(
                            ToServerCommand::ClientReady {
                                major_ver: 0,
                                minor_ver: 1,
                                patch_ver: 0,
                                reserved: 0,
                                full_ver: "Cubetonic 0.1.0".to_owned(),
                                formspec_ver: 8,
                            },
                        ),
                    );
                    self.state = ClientState::ReadySent;
                    Ok(a)
                }
            },
            ToClientCommand::MovePlayer { pos } => {
                if self.state != ClientState::ReadySent {
                    Ok(Vec::new())
                } else {
                    let mut a: Vec<Action> = Vec::new();
                    a.push(Action::ForwardPlayerPos(pos));
                    Ok(a)
                }
            },
            ToClientCommand::Blockdata { pos, nodes } => {
                if self.state != ClientState::ReadySent {
                    Ok(Vec::new())
                } else {
                    let mut a: Vec<Action> = Vec::new();
                    a.push(Action::Send(ToServerCommand::GotBlocks { pos }));
                    match BlockCoordinate::new(pos.0, pos.1, pos.2) {
                        Some(blockpos) => {
                            self.map.insert_block(blockpos, nodes);
                            self.generate_mapblock_with_neighbors(blockpos, &mut a);
                            Ok(a)
                        },
                        None => Err(ClientError::InvalidBlockPosition),
                    }
                }
            },
            ToClientCommand::Addnode { pos, node } => self.handle_set_node(pos, node),
            ToClientCommand::Removenode { pos } => self.handle_set_node(pos, MapNode::air()),
            ToClientCommand::Other => Ok(Vec::new()),
        }
    }

    /// Applies one node write: mutates the node in place if its mapblock is
    /// present and plans remeshing for it and its present neighbors; silently
    /// does nothing if the mapblock is absent (the server will resend it).
    fn handle_set_node(&mut self, pos: VoxelCoordinate, node: MapNode) -> (r: Result<
        Vec<Action>,
        ClientError,
    >)
        requires
            old(self).wf(),
            old(self).spec_next_timestamp() + 7 <= u64::MAX,
        ensures
            final(self).wf(),
            final(self).spec_unknown_tile() == old(self).spec_unknown_tile(),
            final(self).spec_state() == old(self).spec_state(),
            spec_set_node_outcome(*old(self), *final(self), r, pos, node),
    {
        if self.state != ClientState::ReadySent {
            Ok(Vec::new())
        } else {
            let mut a: Vec<Action> = Vec::new();
            match self.map.set_node(&pos, node) {
                Some(blockpos) => {
                    self.generate_mapblock_with_neighbors(blockpos, &mut a);
                    proof {
                        let m = self.spec_map();
                        let targets = spec_remesh_targets(m, blockpos);
                        assert forall|k: int| 0 <= k < targets.len() implies spec_is_mesh_action(
                            #[trigger] a@[k],
                            m,
                            targets[k],
                            old(self).spec_next_timestamp() + k,
                        ) by {
                            assert(spec_is_mesh_action(
                                a@[0 + k],
                                m,
                                targets[k],
                                old(self).spec_next_timestamp() + k,
                            ));
                        }
                    }
                    Ok(a)
                },
                None => Ok(a),
            }
        }
    }

    /// Builds the periodic outbound player state command from the current
    /// position sample; the values pass through unchanged.
    pub fn process_main_event(&self, pos: PlayerPosBits) -> (r: ToServerCommand)
        ensures
            r == (ToServerCommand::Playerpos { pos }),
    {
        ToServerCommand::Playerpos { pos }
    }
}

/// Nothing observable changed.
pub open spec fn spec_unchanged(pre: LuantiClientRunner, post: LuantiClientRunner) -> bool {
    &&& post.spec_state() == pre.spec_state()
    &&& spec_rest_unchanged(pre, post)
}

/// Everything but the state is unchanged.
pub open spec fn spec_rest_unchanged(pre: LuantiClientRunner, post: LuantiClientRunner) -> bool {
    &&& post.spec_map() == pre.spec_map()
    &&& post.spec_node_def() == pre.spec_node_def()
    &&& post.spec_next_timestamp() == pre.spec_next_timestamp()
    &&& post.spec_unknown_tile() == pre.spec_unknown_tile()
}

/// The command was invalid for the current state: it is ignored, nothing
/// changes, and the connection continues.
pub open spec fn spec_ignored(
    pre: LuantiClientRunner,
    post: LuantiClientRunner,
    r: Result<Vec<Action>, ClientError>,
) -> bool {
    &&& spec_unchanged(pre, post)
    &&& r matches Ok(a) && a@.len() == 0
}

/// `a` is the media resolution action for the announced file `name` with
/// content hash `sha1_base64`: the cache file name is the hash's hexadecimal
/// form, or nothing when the hash is not valid base64.
pub open spec fn spec_is_resolve_action(a: Action, name: Seq<char>, sha1_base64: Seq<char>) -> bool {
    match a {
        Action::ResolveMedia(mr) => {
            &&& mr.name@ == name
            &&& match base64_standard_decode(sha1_base64) {
                Some(bytes) => mr.cache_file_name matches Some(n) && n@ == hex_of(bytes),
                None => mr.cache_file_name is None,
            }
        },
        _ => false,
    }
}

/// The outcome of a node write command (add or remove) in terms of the
/// documented silent-drop policy and the remesh-triggering rule.
pub open spec fn spec_set_node_outcome(
    pre: LuantiClientRunner,
    post: LuantiClientRunner,
    r: Result<Vec<Action>, ClientError>,
    pos: VoxelCoordinate,
    node: MapNode,
) -> bool {
    if pre.spec_state() != ClientState::ReadySent {
        spec_ignored(pre, post, r)
    } else {
        let b = pos.spec_block();
        if pre.spec_map().contains_key(b) {
            let m = pre.spec_map().insert(b, pre.spec_map()[b].update(pos.spec_index(), node));
            let targets = spec_remesh_targets(m, b);
            &&& post.spec_map() == m
            &&& r matches Ok(a) && {
                &&& a@.len() == targets.len()
                &&& forall|k: int|
                    0 <= k < targets.len() ==> spec_is_mesh_action(
                        #[trigger] a@[k],
                        m,
                        targets[k],
                        pre.spec_next_timestamp() + k,
                    )
            }
            &&& post.spec_next_timestamp() == pre.spec_next_timestamp() + targets.len()
            &&& post.spec_state() == pre.spec_state()
            &&& post.spec_node_def() == pre.spec_node_def()
            &&& post.spec_unknown_tile() == pre.spec_unknown_tile()
        } else {
            &&& spec_unchanged(pre, post)
            &&& r matches Ok(a) && a@.len() == 0
        }
    }
}

} // verus!
