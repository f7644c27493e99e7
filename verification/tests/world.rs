use std::collections::VecDeque;

use voxelize_world::clients::EntityId;
use voxelize_world::comps::CurrentChunkComp;
use voxelize_world::config::WorldConfig;
use voxelize_world::messages::{ChatMessage, ClientFilter, Message, MessageType, PeerProtocol, VoxelUpdate};
use voxelize_world::vec::{Vec2, Vec3};
use voxelize_world::world::{enqueue_updates, interval_due, method_name, spawn_id, EntityRow, Reaction, World};

fn cfg() -> WorldConfig {
    WorldConfig {
        saving: false,
        save_dir: "data".to_string(),
        seed: 7,
        chunk_size: 16,
        preload_radius: 1,
        max_height: 256,
        sub_chunks: 4,
    }
}

fn ent(index: u32) -> EntityId {
    EntityId { index, generation: 1 }
}

fn is_url_safe(c: char) -> bool {
    c.is_ascii_alphanumeric() || c == '_' || c == '-'
}

fn row(id: &str, etype: &str, metadata: Option<&str>) -> EntityRow {
    EntityRow { id: id.to_string(), etype: etype.to_string(), metadata: metadata.map(|m| m.to_string()) }
}

fn chat(body: &str) -> Message {
    let mut m = Message::new(MessageType::Chat);
    m.chat = Some(ChatMessage { sender: "ann".to_string(), body: body.to_string() });
    m
}

#[test]
fn current_chunk_starts_at_origin_unchanged() {
    let c = CurrentChunkComp::default();
    assert_eq!(c.coords, Vec2(0, 0));
    assert!(!c.changed);
}

#[test]
fn new_world_is_named_idle_and_empty() {
    let w = World::new("world1", &cfg());
    assert_eq!(w.name(), "world1");
    assert!(!w.started());
    assert!(w.is_empty());
    assert!(w.queue().is_empty());
    assert_eq!(w.id().chars().count(), 21);
    assert!(w.id().chars().all(is_url_safe));
}

#[test]
fn new_worlds_get_distinct_ids() {
    let a = World::new("a", &cfg());
    let b = World::new("b", &cfg());
    assert_ne!(a.id(), b.id());
}

#[test]
fn first_client_gets_init_without_peers_and_join_is_queued() {
    let mut w = World::new("w", &cfg());
    let rows = vec![row("e1", "cow", Some("{\"hp\":3}")), row("e2", "rock", None), row("e3", "pig", Some("{}x"))];
    let init = w.add_client("c1", "alice", ent(7), "{\"id\":\"c1\"}".to_string(), &rows);
    assert_eq!(init.kind, MessageType::Init);
    assert_eq!(init.json, "{\"id\":\"c1\"}");
    assert!(init.peers.is_empty());
    assert_eq!(init.entities.len(), 2);
    assert_eq!(init.entities[0].id, "e1");
    assert_eq!(init.entities[0].etype, "cow");
    assert_eq!(init.entities[0].metadata.as_deref(), Some("{\"hp\":3}"));
    assert_eq!(init.entities[1].id, "e3");
    let c = w.clients().get("c1").expect("client filed");
    assert_eq!(c.id, "c1");
    assert_eq!(c.username, "alice");
    assert_eq!(c.entity, ent(7));
    assert_eq!(w.queue().len(), 1);
    let (msg, filter) = &w.queue()[0];
    assert_eq!(msg.kind, MessageType::Join);
    assert_eq!(msg.text, "c1");
    assert!(matches!(filter, ClientFilter::All));
    assert!(!w.is_empty());
}

#[test]
fn later_client_is_told_of_earlier_ones() {
    let mut w = World::new("w", &cfg());
    w.add_client("c1", "alice", ent(1), String::new(), &vec![]);
    w.add_client("c2", "bob", ent(2), String::new(), &vec![]);
    let init = w.add_client("c3", "carol", ent(3), String::new(), &vec![]);
    let mut ids: Vec<String> = init.peers.iter().map(|p| p.id.clone()).collect();
    ids.sort();
    assert_eq!(ids, vec!["c1".to_string(), "c2".to_string()]);
    assert!(init.peers.iter().all(|p| p.username.is_empty()));
    assert_eq!(w.clients().len(), 3);
    let mut all = w.clients().ids();
    all.sort();
    assert_eq!(all, vec!["c1".to_string(), "c2".to_string(), "c3".to_string()]);
}

#[test]
fn rejoining_replaces_the_client() {
    let mut w = World::new("w", &cfg());
    w.add_client("c1", "alice", ent(1), String::new(), &vec![]);
    let init = w.add_client("c1", "alicia", ent(9), String::new(), &vec![]);
    assert_eq!(init.peers.len(), 1);
    assert_eq!(w.clients().len(), 1);
    assert_eq!(w.clients().get("c1").unwrap().username, "alicia");
    assert_eq!(w.clients().get("c1").unwrap().entity, ent(9));
}

#[test]
fn leaving_client_is_announced_and_its_entity_returned() {
    let mut w = World::new("w", &cfg());
    w.add_client("c1", "alice", ent(4), String::new(), &vec![]);
    let gone = w.remove_client("c1");
    assert_eq!(gone, Some(ent(4)));
    assert!(w.clients().get("c1").is_none());
    assert!(w.is_empty());
    let q = w.queue();
    assert_eq!(q.len(), 2);
    assert_eq!(q[0].0.kind, MessageType::Join);
    assert_eq!(q[1].0.kind, MessageType::Leave);
    assert_eq!(q[1].0.text, "c1");
}

#[test]
fn removing_a_stranger_changes_nothing() {
    let mut w = World::new("w", &cfg());
    w.add_client("c1", "alice", ent(4), String::new(), &vec![]);
    assert_eq!(w.remove_client("nobody"), None);
    assert_eq!(w.queue().len(), 1);
    assert_eq!(w.clients().len(), 1);
}

#[test]
fn tick_starts_world_and_runs_only_with_clients() {
    let mut w = World::new("w", &cfg());
    assert!(!w.tick());
    assert!(w.started());
    w.add_client("c1", "alice", ent(1), String::new(), &vec![]);
    assert!(w.tick());
    assert!(w.started());
    w.remove_client("c1");
    assert!(!w.tick());
    assert!(w.started());
}

#[test]
fn peer_request_renames_after_last_peer() {
    let mut w = World::new("w", &cfg());
    w.add_client("c1", "alice", ent(5), String::new(), &vec![]);
    let mut m = Message::new(MessageType::Peer);
    m.peers.push(PeerProtocol { id: "c1".to_string(), username: "first".to_string() });
    m.peers.push(PeerProtocol { id: "c1".to_string(), username: "second".to_string() });
    match w.on_request("c1", m) {
        Reaction::Peer { entity } => assert_eq!(entity, ent(5)),
        _ => panic!("expected a peer reaction"),
    }
    assert_eq!(w.clients().get("c1").unwrap().username, "second");
    assert_eq!(w.clients().get("c1").unwrap().id, "c1");
}

#[test]
fn peer_request_without_peers_keeps_name() {
    let mut w = World::new("w", &cfg());
    w.add_client("c1", "alice", ent(5), String::new(), &vec![]);
    let r = w.on_request("c1", Message::new(MessageType::Peer));
    assert!(matches!(r, Reaction::Peer { entity } if entity == ent(5)));
    assert_eq!(w.clients().get("c1").unwrap().username, "alice");
}

#[test]
fn requests_from_strangers_are_refused() {
    let mut w = World::new("w", &cfg());
    assert!(matches!(w.on_request("x", Message::new(MessageType::Peer)), Reaction::UnknownClient));
    assert!(matches!(w.on_request("x", Message::new(MessageType::Load)), Reaction::UnknownClient));
    assert!(matches!(w.on_request("x", Message::new(MessageType::Unload)), Reaction::UnknownClient));
    assert!(w.is_empty());
}

#[test]
fn load_and_unload_name_the_entity_and_pass_the_json() {
    let mut w = World::new("w", &cfg());
    w.add_client("c1", "alice", ent(8), String::new(), &vec![]);
    let mut m = Message::new(MessageType::Load);
    m.json = "{\"chunks\":[[0,1]]}".to_string();
    match w.on_request("c1", m) {
        Reaction::Load { entity, json } => {
            assert_eq!(entity, ent(8));
            assert_eq!(json, "{\"chunks\":[[0,1]]}");
        }
        _ => panic!("expected a load reaction"),
    }
    let mut m = Message::new(MessageType::Unload);
    m.json = "{\"chunks\":[]}".to_string();
    match w.on_request("c1", m) {
        Reaction::Unload { entity, json } => {
            assert_eq!(entity, ent(8));
            assert_eq!(json, "{\"chunks\":[]}");
        }
        _ => panic!("expected an unload reaction"),
    }
}

#[test]
fn method_requests_need_a_handler() {
    let mut w = World::new("w", &cfg());
    let mut m = Message::new(MessageType::Method);
    m.json = "{\"method\":\"Spawn\"}".to_string();
    assert!(matches!(w.on_request("c1", m), Reaction::NoMethodHandler));
    w.set_method_handle();
    let mut m = Message::new(MessageType::Method);
    m.json = "{\"method\":\"Spawn\"}".to_string();
    match w.on_request("c1", m) {
        Reaction::Method { json } => assert_eq!(json, "{\"method\":\"Spawn\"}"),
        _ => panic!("expected a method reaction"),
    }
}

#[test]
fn transport_requests_need_a_handler() {
    let mut w = World::new("w", &cfg());
    let mut m = Message::new(MessageType::Transport);
    m.json = "[1,2]".to_string();
    assert!(matches!(w.on_request("c1", m), Reaction::NoTransportHandler));
    w.set_transport_handle();
    let mut m = Message::new(MessageType::Transport);
    m.json = "[1,2]".to_string();
    match w.on_request("c1", m) {
        Reaction::Transport { json } => assert_eq!(json, "[1,2]"),
        _ => panic!("expected a transport reaction"),
    }
}

#[test]
fn chat_lines_are_broadcast_but_commands_are_not() {
    let mut w = World::new("w", &cfg());
    assert!(matches!(w.on_request("c1", chat("hello there")), Reaction::Done));
    assert_eq!(w.queue().len(), 1);
    assert_eq!(w.queue()[0].0.kind, MessageType::Chat);
    assert_eq!(w.queue()[0].0.chat.as_ref().unwrap().body, "hello there");
    assert!(matches!(w.queue()[0].1, ClientFilter::All));
    assert!(matches!(w.on_request("c1", chat("/tp 1 2 3")), Reaction::Done));
    assert!(matches!(w.on_request("c1", chat("")), Reaction::Done));
    assert!(matches!(w.on_request("c1", Message::new(MessageType::Chat)), Reaction::Done));
    assert_eq!(w.queue().len(), 2);
    assert_eq!(w.queue()[1].0.chat.as_ref().unwrap().body, "");
}

#[test]
fn updates_are_handed_back() {
    let mut w = World::new("w", &cfg());
    let mut m = Message::new(MessageType::Update);
    m.updates.push(VoxelUpdate { vx: 1, vy: 2, vz: 3, voxel: 9 });
    match w.on_request("c1", m) {
        Reaction::Update { updates } => assert_eq!(updates, vec![VoxelUpdate { vx: 1, vy: 2, vz: 3, voxel: 9 }]),
        _ => panic!("expected an update reaction"),
    }
}

#[test]
fn other_kinds_are_unknown() {
    let mut w = World::new("w", &cfg());
    for kind in [MessageType::Init, MessageType::Join, MessageType::Leave, MessageType::Error, MessageType::Entity] {
        match w.on_request("c1", Message::new(kind)) {
            Reaction::Unknown { kind: k } => assert_eq!(k, kind),
            _ => panic!("expected an unknown reaction"),
        }
    }
    assert!(w.queue().is_empty());
}

#[test]
fn broadcast_queues_in_order_and_take_empties() {
    let mut w = World::new("w", &cfg());
    w.broadcast(Message::with_text(MessageType::Error, "a".to_string()), ClientFilter::Direct("c1".to_string()));
    w.broadcast(Message::with_text(MessageType::Error, "b".to_string()), ClientFilter::All);
    let q = w.take_messages();
    assert_eq!(q.len(), 2);
    assert_eq!(q[0].0.text, "a");
    assert!(matches!(&q[0].1, ClientFilter::Direct(id) if id == "c1"));
    assert_eq!(q[1].0.text, "b");
    assert!(w.queue().is_empty());
}

#[test]
fn voxel_updates_outside_the_world_are_dropped_latest_first() {
    let mut q: VecDeque<(Vec3<i32>, u32)> = VecDeque::new();
    q.push_back((Vec3(0, 0, 0), 1));
    let ups = vec![
        VoxelUpdate { vx: 1, vy: 1, vz: 1, voxel: 10 },
        VoxelUpdate { vx: 2, vy: 2, vz: 2, voxel: 20 },
        VoxelUpdate { vx: 3, vy: 3, vz: 3, voxel: 30 },
    ];
    enqueue_updates(&mut q, &ups, &vec![true, false, true]);
    let got: Vec<(Vec3<i32>, u32)> = q.into_iter().collect();
    assert_eq!(got, vec![(Vec3(3, 3, 3), 30), (Vec3(1, 1, 1), 10), (Vec3(0, 0, 0), 1)]);
}

#[test]
fn method_names_are_lowercased() {
    assert_eq!(method_name("SpawnCow"), "spawncow");
    assert_eq!(method_name("already"), "already");
    assert_eq!(method_name("ÀB"), "àb");
}

#[test]
fn ticks_are_counted_and_start_the_world() {
    let mut w = World::new("w", &cfg());
    assert!(w.unstarted());
    assert_eq!(w.ticks(), 0);
    w.tick();
    w.tick();
    assert_eq!(w.ticks(), 2);
    assert!(!w.unstarted());
}

#[test]
fn intervals_fall_due_on_multiples() {
    assert!(interval_due(6, 3));
    assert!(!interval_due(7, 3));
    assert!(interval_due(1, 1));
    assert!(!interval_due(0, 0));
    assert!(!interval_due(5, 0));
}

#[test]
fn spawning_needs_a_loader() {
    assert!(spawn_id(false).is_none());
    let id = spawn_id(true).expect("an id");
    assert_eq!(id.chars().count(), 21);
    assert!(id.chars().all(is_url_safe));
}

#[test]
fn handlers_match_dispatch() {
    let mut w = World::new("w", &cfg());
    w.add_client("c1", "alice", ent(2), String::new(), &vec![]);
    let mut m = Message::new(MessageType::Load);
    m.json = "{}".to_string();
    assert!(matches!(w.on_load("c1", m), Reaction::Load { entity, json } if entity == ent(2) && json == "{}"));
    assert!(matches!(w.on_unload("zz", Message::new(MessageType::Unload)), Reaction::UnknownClient));
    assert!(matches!(w.on_method(Message::new(MessageType::Method)), Reaction::NoMethodHandler));
    assert!(matches!(w.on_update(Message::new(MessageType::Update)), Reaction::Update { updates } if updates.is_empty()));
    let mut p = Message::new(MessageType::Peer);
    p.peers.push(PeerProtocol { id: "c1".to_string(), username: "al".to_string() });
    assert!(matches!(w.on_peer("c1", p), Reaction::Peer { entity } if entity == ent(2)));
    assert_eq!(w.clients().get("c1").unwrap().username, "al");
    w.on_chat(chat("hi"));
    w.on_chat(chat("/kick bob"));
    assert_eq!(w.queue().len(), 2);
}

#[test]
fn world_keeps_its_settings() {
    let w = World::new("world1", &cfg());
    let c = w.config();
    assert!(!c.saving);
    assert_eq!(c.save_dir, "data");
    assert_eq!(c.seed, 7);
    assert_eq!(c.chunk_size, 16);
    assert_eq!(c.preload_radius, 1);
    assert_eq!(c.max_height, 256);
    assert_eq!(c.sub_chunks, 4);
}

#[test]
fn preload_uses_the_configured_radius_and_shape() {
    let w = World::new("w", &cfg());
    let square = w.preload_square();
    assert_eq!(square.len(), 9);
    let within: Vec<bool> = square.iter().map(|c| c.0 == 0).collect();
    let seeds = w.preload(&within);
    let got: Vec<Vec2<i32>> = seeds.iter().map(|s| s.coords).collect();
    assert_eq!(got, vec![Vec2(0, -1), Vec2(0, 0), Vec2(0, 1)]);
    for s in &seeds {
        assert_eq!(s.params.max_height, 256);
        assert_eq!(s.params.sub_chunks, 4);
        assert_eq!(s.params.size, 16);
    }
}

#[test]
fn huge_radius_wraps_to_nothing() {
    let mut c = cfg();
    c.preload_radius = u32::MAX;
    let w = World::new("w", &c);
    assert!(w.preload_square().is_empty());
}

#[test]
fn taking_a_client_queues_nothing_until_announced() {
    let mut w = World::new("w", &cfg());
    w.add_client("c1", "alice", ent(3), String::new(), &vec![]);
    assert_eq!(w.take_client("c1"), Some(ent(3)));
    assert_eq!(w.queue().len(), 1);
    w.announce_leave("c1");
    assert_eq!(w.queue().len(), 2);
    assert_eq!(w.queue()[1].0.kind, MessageType::Leave);
    assert_eq!(w.queue()[1].0.text, "c1");
    assert_eq!(w.take_client("c1"), None);
}
