use cubetonic::block::{MapBlockNodes, MapNode, CONTENT_AIR};
use cubetonic::coords::BlockCoordinate;
use cubetonic::luanti_client::{
    Action, ClientError, ClientState, LuantiClientRunner, MediaAnnouncement, PlayerPosBits,
    ToClientCommand, ToServerCommand, make_init_command, random_name_suffix,
};
use cubetonic::node_def::{DrawType, NodeDef};
use cubetonic::reconciler::RenderableMeshTable;

fn node(content_id: u16) -> MapNode {
    MapNode { content_id, param1: 0, param2: 0 }
}

fn sample_pos() -> PlayerPosBits {
    PlayerPosBits { pos_x: 100, pos_y: 200, pos_z: 300, yaw: 40, pitch: 50 }
}

fn solid_defs() -> Vec<(u16, NodeDef)> {
    vec![(1, NodeDef { drawtype: DrawType::Normal, tiles: [0; 6] })]
}

fn ready_runner() -> LuantiClientRunner {
    let mut runner = LuantiClientRunner::new(0);
    runner.process_network_command(ToClientCommand::Hello { first_srp: true }).unwrap();
    runner.process_network_command(ToClientCommand::AuthAccept).unwrap();
    runner.process_network_command(ToClientCommand::Nodedef { defs: solid_defs() }).unwrap();
    runner.process_network_command(ToClientCommand::AnnounceMedia { files: vec![] }).unwrap();
    assert_eq!(runner.state(), ClientState::ReadySent);
    runner
}

#[test]
fn state_machine_forward_only() {
    let mut runner = LuantiClientRunner::new(0);
    assert_eq!(runner.state(), ClientState::Connected);

    let actions = runner.process_network_command(ToClientCommand::Hello { first_srp: true })
        .unwrap();
    assert_eq!(runner.state(), ClientState::AuthSent);
    assert!(matches!(actions[..], [Action::Send(ToServerCommand::FirstSrp)]));

    let actions = runner.process_network_command(ToClientCommand::AuthAccept).unwrap();
    assert_eq!(runner.state(), ClientState::Init2Sent);
    assert_eq!(actions.len(), 1);
    match &actions[0] {
        Action::Send(ToServerCommand::Init2 { lang }) => assert_eq!(lang, "en"),
        other => panic!("unexpected action: {:?}", std::mem::discriminant(other)),
    }

    // A player move before Ready is ignored: state keeps its place and no
    // position is forwarded.
    let actions = runner.process_network_command(ToClientCommand::MovePlayer {
        pos: sample_pos(),
    })
        .unwrap();
    assert_eq!(runner.state(), ClientState::Init2Sent);
    assert!(actions.is_empty());

    let actions = runner.process_network_command(ToClientCommand::Nodedef { defs: solid_defs() })
        .unwrap();
    assert_eq!(runner.state(), ClientState::Init2Sent);
    assert!(actions.is_empty());

    let actions = runner.process_network_command(ToClientCommand::AnnounceMedia { files: vec![] })
        .unwrap();
    assert_eq!(runner.state(), ClientState::ReadySent);
    match actions.last().unwrap() {
        Action::Send(ToServerCommand::ClientReady { full_ver, formspec_ver, .. }) => {
            assert_eq!(full_ver, "Cubetonic 0.1.0");
            assert_eq!(*formspec_ver, 8);
        },
        _ => panic!("expected a ClientReady send"),
    }

    // A player move after Ready is forwarded exactly once, unchanged.
    let actions = runner.process_network_command(ToClientCommand::MovePlayer {
        pos: sample_pos(),
    })
        .unwrap();
    assert_eq!(actions.len(), 1);
    match &actions[0] {
        Action::ForwardPlayerPos(p) => assert_eq!(*p, sample_pos()),
        _ => panic!("expected a forwarded player position"),
    }
    assert_eq!(runner.state(), ClientState::ReadySent);
}

#[test]
fn duplicate_handshake_commands_are_ignored() {
    let mut runner = LuantiClientRunner::new(0);
    runner.process_network_command(ToClientCommand::Hello { first_srp: true }).unwrap();
    // A second Hello is invalid for AuthSent and changes nothing.
    let actions = runner.process_network_command(ToClientCommand::Hello { first_srp: true })
        .unwrap();
    assert!(actions.is_empty());
    assert_eq!(runner.state(), ClientState::AuthSent);
    // AuthAccept before Hello would likewise have been ignored.
    let mut fresh = LuantiClientRunner::new(0);
    let actions = fresh.process_network_command(ToClientCommand::AuthAccept).unwrap();
    assert!(actions.is_empty());
    assert_eq!(fresh.state(), ClientState::Connected);
}

#[test]
fn unsupported_auth_is_fatal() {
    let mut runner = LuantiClientRunner::new(0);
    let r = runner.process_network_command(ToClientCommand::Hello { first_srp: false });
    assert_eq!(r.unwrap_err(), ClientError::UnsupportedAuth);
    assert_eq!(runner.state(), ClientState::Connected);
}

#[test]
fn blockdata_out_of_range_is_fatal() {
    let mut runner = ready_runner();
    let r = runner.process_network_command(ToClientCommand::Blockdata {
        pos: (3000, 0, 0),
        nodes: MapBlockNodes::filled(node(1)),
    });
    assert_eq!(r.unwrap_err(), ClientError::InvalidBlockPosition);
    assert_eq!(runner.map().block_count(), 0);
}

#[test]
fn blockdata_acknowledges_and_remeshes() {
    let mut runner = ready_runner();
    let actions = runner.process_network_command(ToClientCommand::Blockdata {
        pos: (2, 3, 4),
        nodes: MapBlockNodes::filled(node(1)),
    })
        .unwrap();
    // First the acknowledgment, then one mesh task (no neighbors present).
    assert_eq!(actions.len(), 2);
    match &actions[0] {
        Action::Send(ToServerCommand::GotBlocks { pos }) => assert_eq!(*pos, (2, 3, 4)),
        _ => panic!("expected a GotBlocks send"),
    }
    match &actions[1] {
        Action::SpawnMeshgen(t) => {
            assert_eq!(t.blockpos, BlockCoordinate { x: 2, y: 3, z: 4 });
        },
        _ => panic!("expected a meshgen task"),
    }
    assert_eq!(runner.map().block_count(), 1);
}

#[test]
fn voxel_mutation_on_absent_block_is_silent() {
    let mut runner = ready_runner();
    let actions = runner.process_network_command(ToClientCommand::Addnode {
        pos: cubetonic::coords::VoxelCoordinate { x: 5, y: 5, z: 5 },
        node: node(1),
    })
        .unwrap();
    assert!(actions.is_empty());
    assert_eq!(runner.map().block_count(), 0);
}

#[test]
fn remesh_completeness_either_insertion_order() {
    // Blocks A (solid cube) and B (all vacuum) side by side: after both
    // arrive and the triggered remeshes settle, A's mesh shows its boundary
    // face toward B, no matter which block arrived first and in which order
    // the mesh results came back.
    let a = BlockCoordinate { x: 0, y: 0, z: 0 };
    for (first, second) in [((0, 0, 0), (1, 0, 0)), ((1, 0, 0), (0, 0, 0))] {
        let mut runner = ready_runner();
        let mut tasks = Vec::new();
        for pos in [first, second] {
            // The block at (0,0,0) is the solid one; (1,0,0) is vacuum.
            let fill = if pos == (0, 0, 0) { node(1) } else { node(CONTENT_AIR) };
            let actions = runner.process_network_command(ToClientCommand::Blockdata {
                pos,
                nodes: MapBlockNodes::filled(fill),
            })
                .unwrap();
            for action in actions {
                if let Action::SpawnMeshgen(t) = action {
                    tasks.push(t);
                }
            }
        }
        let defs = runner.node_def().unwrap();
        let mut results: Vec<_> = tasks.iter().map(|t| t.generate(defs)).collect();
        // Adversarial completion order: newest results first.
        results.reverse();
        let mut table = RenderableMeshTable::new();
        for result in results {
            table.insert_mapblock_mesh(result);
        }
        let stored = table.get(&a).unwrap();
        // One full 16x16 side toward B, and nothing else: 256 quads.
        assert_eq!(stored.num_indices, 256 * 6);
        let mesh = stored.mesh.as_ref().unwrap();
        assert!(mesh.faces.iter().all(|f| f.face == 2 && f.x == 15));
        assert_eq!(mesh.faces.len(), 256);
        // B stays empty.
        let b = BlockCoordinate { x: 1, y: 0, z: 0 };
        assert_eq!(table.get(&b).unwrap().num_indices, 0);
    }
}

#[test]
fn voxel_removal_triggers_neighbor_remesh() {
    // A solid block whose +X neighbor is also solid: removing a node at the
    // boundary remeshes both blocks.
    let mut runner = ready_runner();
    runner.process_network_command(ToClientCommand::Blockdata {
        pos: (0, 0, 0),
        nodes: MapBlockNodes::filled(node(1)),
    })
        .unwrap();
    runner.process_network_command(ToClientCommand::Blockdata {
        pos: (1, 0, 0),
        nodes: MapBlockNodes::filled(node(1)),
    })
        .unwrap();
    let actions = runner.process_network_command(ToClientCommand::Removenode {
        pos: cubetonic::coords::VoxelCoordinate { x: 15, y: 8, z: 8 },
    })
        .unwrap();
    let mut remeshed = Vec::new();
    for action in &actions {
        match action {
            Action::SpawnMeshgen(t) => remeshed.push(t.blockpos),
            _ => panic!("expected only meshgen tasks"),
        }
    }
    assert_eq!(
        remeshed,
        vec![BlockCoordinate { x: 0, y: 0, z: 0 }, BlockCoordinate { x: 1, y: 0, z: 0 }]
    );
}

#[test]
fn announce_media_resolves_cache_names() {
    let mut runner = LuantiClientRunner::new(0);
    runner.process_network_command(ToClientCommand::Hello { first_srp: true }).unwrap();
    runner.process_network_command(ToClientCommand::AuthAccept).unwrap();
    runner.process_network_command(ToClientCommand::Nodedef { defs: solid_defs() }).unwrap();
    let actions = runner.process_network_command(ToClientCommand::AnnounceMedia {
        files: vec![
            MediaAnnouncement {
                name: "stone.png".to_owned(),
                sha1_base64: "AAEC".to_owned(),
            },
            MediaAnnouncement {
                name: "broken.png".to_owned(),
                sha1_base64: "!!!".to_owned(),
            },
        ],
    })
        .unwrap();
    assert_eq!(actions.len(), 3);
    match &actions[0] {
        Action::ResolveMedia(mr) => {
            assert_eq!(mr.name, "stone.png");
            assert_eq!(mr.cache_file_name.as_deref(), Some("000102"));
        },
        _ => panic!("expected a media resolution"),
    }
    match &actions[1] {
        Action::ResolveMedia(mr) => {
            assert_eq!(mr.name, "broken.png");
            assert!(mr.cache_file_name.is_none());
        },
        _ => panic!("expected a media resolution"),
    }
    assert!(matches!(actions[2], Action::Send(ToServerCommand::ClientReady { .. })));
}

#[test]
fn init_command_carries_generated_user_name() {
    match make_init_command(42) {
        ToServerCommand::Init {
            user_name,
            serialization_ver_max,
            supp_compr_modes,
            min_net_proto_version,
            max_net_proto_version,
        } => {
            assert_eq!(user_name, "test42");
            assert_eq!(serialization_ver_max, 29);
            assert_eq!(supp_compr_modes, 0);
            assert_eq!(min_net_proto_version, 46);
            assert_eq!(max_net_proto_version, 46);
        },
        _ => panic!("expected an Init command"),
    }
    match make_init_command(0) {
        ToServerCommand::Init { user_name, .. } => assert_eq!(user_name, "test0"),
        _ => panic!("expected an Init command"),
    }
    match make_init_command(999) {
        ToServerCommand::Init { user_name, .. } => assert_eq!(user_name, "test999"),
        _ => panic!("expected an Init command"),
    }
}

#[test]
fn random_suffix_is_in_range() {
    for _ in 0..100 {
        assert!(random_name_suffix() < 1000);
    }
}

#[test]
fn player_pos_sample_passes_through() {
    let runner = LuantiClientRunner::new(0);
    let pos = sample_pos();
    match runner.process_main_event(pos) {
        ToServerCommand::Playerpos { pos: sent } => assert_eq!(sent, pos),
        _ => panic!("expected a player position send"),
    }
}
