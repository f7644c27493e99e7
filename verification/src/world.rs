use vstd::prelude::*;

use crate::clients::{Client, ClientView, Clients, EntityId};
use crate::config::{WorldConfig, WorldConfigView};
use crate::ids::{generate_id, is_generated_id};
use crate::messages::{
    text_message, ClientFilter, EntityProtocol, EntityView, FilterView, Message,
    MessageType, MessageView, PeerProtocol, PeerView, VoxelUpdate,
};
use crate::preload::{
    preload_coords, preload_plan, selected, square_coord, square_len, ChunkParams, ChunkSeed,
};
use crate::vec::{Vec2, Vec3};

verus! {

/// A voxel world: its identity, whether it has started ticking and how many
/// ticks it has run, the clients connected to it, the messages waiting to be
/// broadcast, and whether handlers for `Method` and `Transport` requests are
/// installed.
pub struct World {
    /// Id of the world, generated at creation.
    id: String,
    /// Name of the world, used for connection.
    name: String,
    /// The settings the world was created with.
    config: WorldConfig,
    /// Whether the world has started ticking.
    started: bool,
    ticks: u64,
    clients: Clients,
    queue: Vec<(Message, ClientFilter)>,
    method_handle: bool,
    transport_handle: bool,
}

/// The mathematical value of a [`World`].
pub struct WorldView {
    pub id: Seq<char>,
    pub name: Seq<char>,
    pub config: WorldConfigView,
    pub started: bool,
    pub ticks: u64,
    pub clients: Map<Seq<char>, ClientView>,
    pub queue: Seq<(MessageView, FilterView)>,
    pub method_handle: bool,
    pub transport_handle: bool,
}

/// The value of a queue of messages to broadcast.
pub open spec fn queue_view(q: Seq<(Message, ClientFilter)>) -> Seq<(MessageView, FilterView)> {
    q.map_values(|e: (Message, ClientFilter)| (e.0@, e.1@))
}

impl View for World {
    type V = WorldView;

    closed spec fn view(&self) -> WorldView {
        WorldView {
            id: self.id@,
            name: self.name@,
            config: self.config@,
            started: self.started,
            ticks: self.ticks,
            clients: self.clients@,
            queue: queue_view(self.queue@),
            method_handle: self.method_handle,
            transport_handle: self.transport_handle,
        }
    }
}

/// The registry invariant: finitely many clients, each filed under its own id.
pub open spec fn registry_ok(clients: Map<Seq<char>, ClientView>) -> bool {
    &&& clients.dom().finite()
    &&& forall|k: Seq<char>| #[trigger] clients.contains_key(k) ==> clients[k].id == k
}

/// An entity of the store as the new client is told about it: its id, its type
/// and its metadata as JSON text, absent when the metadata holds nothing.
pub struct EntityRow {
    pub id: String,
    pub etype: String,
    pub metadata: Option<String>,
}

impl View for EntityRow {
    type V = EntityView;

    open spec fn view(&self) -> EntityView {
        EntityView {
            id: self.id@,
            etype: self.etype@,
            metadata: match self.metadata {
                Some(m) => Some(m@),
                None => None,
            },
        }
    }
}

/// The entities among the first `n` rows whose metadata holds something, in order.
pub open spec fn listed_entities(rows: Seq<EntityView>, n: int) -> Seq<EntityView>
    decreases n,
{
    if n <= 0 {
        Seq::empty()
    } else if rows[n - 1].metadata is Some {
        listed_entities(rows, n - 1).push(rows[n - 1])
    } else {
        listed_entities(rows, n - 1)
    }
}

/// The peers a new client is told about: every client already connected, by id
/// and with no user name, each once, in the registry's order.
pub open spec fn lists_clients_once(peers: Seq<PeerView>, clients: Map<Seq<char>, ClientView>) -> bool {
    &&& peers.len() == clients.len()
    &&& forall|i: int| 0 <= i < peers.len() ==> clients.contains_key(#[trigger] peers[i].id)
    &&& forall|i: int| 0 <= i < peers.len() ==> (#[trigger] peers[i]).username == Seq::<char>::empty()
    &&& forall|i: int, j: int| 0 <= i < j < peers.len() ==> #[trigger] peers[i].id != #[trigger] peers[j].id
    &&& forall|k: Seq<char>| #[trigger] clients.contains_key(k) ==> exists|i: int| 0 <= i < peers.len() && #[trigger] peers[i].id == k
}

/// Whether a chat line is a command: it starts with `/`.
pub open spec fn is_command(body: Seq<char>) -> bool {
    body.len() > 0 && body[0] == '/'
}

/// What a request asks of the caller once the world has handled its part.
pub enum Reaction {
    /// Nothing is left to do.
    Done,
    /// The request came from a client that is not connected; it is dropped.
    UnknownClient,
    /// Apply the reported positions and directions to this entity.
    Peer { entity: EntityId },
    /// Add the chunks of this JSON request to this entity's chunk requests.
    Load { entity: EntityId, json: String },
    /// Take the chunks of this JSON request out of this entity's chunk requests.
    Unload { entity: EntityId, json: String },
    /// Queue these voxel updates (see [`enqueue_updates`]).
    Update { updates: Vec<VoxelUpdate> },
    /// Call the method handler with this JSON request.
    Method { json: String },
    /// A method was requested but no method handler is installed.
    NoMethodHandler,
    /// Call the transport handler with this JSON value.
    Transport { json: String },
    /// A transport was requested but no transport handler is installed.
    NoTransportHandler,
    /// A message of a kind that clients do not send.
    Unknown { kind: MessageType },
}

/// The mathematical value of a [`Reaction`].
pub enum ReactionView {
    Done,
    UnknownClient,
    Peer { entity: EntityId },
    Load { entity: EntityId, json: Seq<char> },
    Unload { entity: EntityId, json: Seq<char> },
    Update { updates: Seq<VoxelUpdate> },
    Method { json: Seq<char> },
    NoMethodHandler,
    Transport { json: Seq<char> },
    NoTransportHandler,
    Unknown { kind: MessageType },
}

impl View for Reaction {
    type V = ReactionView;

    open spec fn view(&self) -> ReactionView {
        match self {
            Reaction::Done => ReactionView::Done,
            Reaction::UnknownClient => ReactionView::UnknownClient,
            Reaction::Peer { entity } => ReactionView::Peer { entity: *entity },
            Reaction::Load { entity, json } => ReactionView::Load { entity: *entity, json: json@ },
            Reaction::Unload { entity, json } => ReactionView::Unload { entity: *entity, json: json@ },
            Reaction::Update { updates } => ReactionView::Update { updates: updates@ },
            Reaction::Method { json } => ReactionView::Method { json: json@ },
            Reaction::NoMethodHandler => ReactionView::NoMethodHandler,
            Reaction::Transport { json } => ReactionView::Transport { json: json@ },
            Reaction::NoTransportHandler => ReactionView::NoTransportHandler,
            Reaction::Unknown { kind } => ReactionView::Unknown { kind: *kind },
        }
    }
}

/// The world after a `Peer` request from `cid`: a connected client takes the
/// user name of the last peer reported; nothing else changes.
pub open spec fn world_after_peer(w: WorldView, cid: Seq<char>, m: MessageView) -> WorldView {
    if w.clients.contains_key(cid) && m.peers.len() > 0 {
        WorldView {
            clients: w.clients.insert(
                cid,
                ClientView { username: m.peers.last().username, ..w.clients[cid] },
            ),
            ..w
        }
    } else {
        w
    }
}

/// The world after a chat message: a line that is not a command is queued for
/// every client; nothing else changes.
pub open spec fn world_after_chat(w: WorldView, m: MessageView) -> WorldView {
    match m.chat {
        Some(c) => if is_command(c.body) {
            w
        } else {
            WorldView { queue: w.queue.push((m, FilterView::All)), ..w }
        },
        None => w,
    }
}

/// The world after it handled a request from `cid`: what the handler of the
/// request's kind does to it (only `Peer` and `Chat` change the world).
pub open spec fn world_after_request(w: WorldView, cid: Seq<char>, m: MessageView) -> WorldView {
    match m.kind {
        MessageType::Peer => world_after_peer(w, cid, m),
        MessageType::Chat => world_after_chat(w, m),
        _ => w,
    }
}

/// What is left after a `Peer` request: moving the client's entity.
pub open spec fn reaction_to_peer(w: WorldView, cid: Seq<char>) -> ReactionView {
    if w.clients.contains_key(cid) {
        ReactionView::Peer { entity: w.clients[cid].entity }
    } else {
        ReactionView::UnknownClient
    }
}

/// What is left after a `Load` request: adding its chunks to the client's requests.
pub open spec fn reaction_to_load(w: WorldView, cid: Seq<char>, m: MessageView) -> ReactionView {
    if w.clients.contains_key(cid) {
        ReactionView::Load { entity: w.clients[cid].entity, json: m.json }
    } else {
        ReactionView::UnknownClient
    }
}

/// What is left after an `Unload` request: taking its chunks out of the client's requests.
pub open spec fn reaction_to_unload(w: WorldView, cid: Seq<char>, m: MessageView) -> ReactionView {
    if w.clients.contains_key(cid) {
        ReactionView::Unload { entity: w.clients[cid].entity, json: m.json }
    } else {
        ReactionView::UnknownClient
    }
}

/// What is left after a `Method` request: calling the handler, if one is installed.
pub open spec fn reaction_to_method(w: WorldView, m: MessageView) -> ReactionView {
    if w.method_handle {
        ReactionView::Method { json: m.json }
    } else {
        ReactionView::NoMethodHandler
    }
}

/// What is left after a `Transport` request: calling the handler, if one is installed.
pub open spec fn reaction_to_transport(w: WorldView, m: MessageView) -> ReactionView {
    if w.transport_handle {
        ReactionView::Transport { json: m.json }
    } else {
        ReactionView::NoTransportHandler
    }
}

/// What is left after an `Update` request: queueing its voxel updates.
pub open spec fn reaction_to_update(m: MessageView) -> ReactionView {
    ReactionView::Update { updates: m.updates }
}

/// The world after a client with the given id, user name and entity joined:
/// the client is filed under its id (replacing one of the same id) and a
/// `Join` message naming it is queued for every client.
pub open spec fn world_after_join(w: WorldView, id: Seq<char>, username: Seq<char>, entity: EntityId) -> WorldView {
    WorldView {
        clients: w.clients.insert(id, ClientView { id, entity, username }),
        queue: w.queue.push((text_message(MessageType::Join, id), FilterView::All)),
        ..w
    }
}

/// The world after the client of the given id left: it is out of the
/// registry and, if it was connected, a `Leave` message naming it is queued
/// for every client.
pub open spec fn world_after_leave(w: WorldView, id: Seq<char>) -> WorldView {
    WorldView {
        clients: w.clients.remove(id),
        queue: if w.clients.contains_key(id) {
            w.queue.push((text_message(MessageType::Leave, id), FilterView::All))
        } else {
            w.queue
        },
        ..w
    }
}

/// The world after a tick: it counts as started, and one more tick has run
/// (the count stops at `u64::MAX`).
pub open spec fn world_after_tick(w: WorldView) -> WorldView {
    WorldView { started: true, ticks: if w.ticks < u64::MAX { (w.ticks + 1) as u64 } else { w.ticks }, ..w }
}

/// Whether a callback set to run every `interval` ticks runs at tick number
/// `ticks` (a zero interval never runs).
pub open spec fn is_due(ticks: u64, interval: u64) -> bool {
    interval > 0 && ticks % interval == 0
}

/// Whether a callback set to run every `interval` ticks runs at tick number `ticks`.
pub fn interval_due(ticks: u64, interval: u64) -> (due: bool)
    ensures
        due == is_due(ticks, interval),
{
    interval > 0 && ticks % interval == 0
}

/// Whether an entity of a type can be spawned: with a loader for its type it
/// gets a freshly generated id; without one it is not spawned.
pub fn spawn_id(has_loader: bool) -> (id: Option<String>)
    ensures
        id is Some <==> has_loader,
        id matches Some(s) ==> is_generated_id(s@),
{
    if has_loader {
        Some(generate_id())
    } else {
        None
    }
}

/// What is left to the caller after the world handled a request from `cid`:
/// what the handler of the request's kind leaves.
pub open spec fn reaction_to_request(w: WorldView, cid: Seq<char>, m: MessageView) -> ReactionView {
    match m.kind {
        MessageType::Peer => reaction_to_peer(w, cid),
        MessageType::Load => reaction_to_load(w, cid, m),
        MessageType::Unload => reaction_to_unload(w, cid, m),
        MessageType::Method => reaction_to_method(w, m),
        MessageType::Chat => ReactionView::Done,
        MessageType::Update => reaction_to_update(m),
        MessageType::Transport => reaction_to_transport(w, m),
        _ => ReactionView::Unknown { kind: m.kind },
    }
}

/// The updates among the first `n` whose flag is set, each as the voxel to set
/// and its new value, latest first.
pub open spec fn queued_updates(updates: Seq<VoxelUpdate>, within: Seq<bool>, n: int) -> Seq<(Vec3<i32>, u32)>
    decreases n,
{
    if n <= 0 {
        Seq::empty()
    } else if within[n - 1] {
        seq![(Vec3(updates[n - 1].vx, updates[n - 1].vy, updates[n - 1].vz), updates[n - 1].voxel)]
            + queued_updates(updates, within, n - 1)
    } else {
        queued_updates(updates, within, n - 1)
    }
}

/// Puts each voxel update whose flag in `within` is set (whether the voxel's
/// chunk lies inside the world) at the front of `to_update`, one after the
/// other, so that the latest ends up first; updates outside the world are
/// dropped.
pub fn enqueue_updates(
    to_update: &mut std::collections::VecDeque<(Vec3<i32>, u32)>,
    updates: &Vec<VoxelUpdate>,
    within: &Vec<bool>,
)
    requires
        updates@.len() == within@.len(),
    ensures
        final(to_update)@ == queued_updates(updates@, within@, updates@.len() as int) + old(to_update)@,
        forall|j: int| 0 <= j < updates@.len() && #[trigger] within@[j] ==> final(to_update)@.contains(
            (Vec3(updates@[j].vx, updates@[j].vy, updates@[j].vz), updates@[j].voxel),
        ),
{
    let mut i: usize = 0;
    while i < updates.len()
        invariant
            updates@.len() == within@.len(),
            i <= updates@.len(),
            to_update@ == queued_updates(updates@, within@, i as int) + old(to_update)@,
        decreases updates@.len() - i,
    {
        if within[i] {
            let u = updates[i];
            to_update.push_front((Vec3(u.vx, u.vy, u.vz), u.voxel));
            assert(to_update@ =~= queued_updates(updates@, within@, i + 1) + old(to_update)@);
        }
        i = i + 1;
    }
    proof {
        crate::laws::law_queued_updates_are_the_flagged_voxels(updates@, within@, updates@.len() as int);
        let q = queued_updates(updates@, within@, updates@.len() as int);
        assert forall|j: int| 0 <= j < updates@.len() && #[trigger] within@[j] implies to_update@.contains(
            (Vec3(updates@[j].vx, updates@[j].vy, updates@[j].vz), updates@[j].voxel),
        ) by {
            let e = (Vec3(updates@[j].vx, updates@[j].vy, updates@[j].vz), updates@[j].voxel);
            assert(q.contains(e));
            let k = choose|k: int| 0 <= k < q.len() && q[k] == e;
            assert(to_update@[k] == q[k]);
        }
    }
}

/// `str::to_lowercase`: what it returns is a function of the characters of
/// its argument alone.
pub uninterp spec fn lowercase(s: Seq<char>) -> Seq<char>;

/// Lower-cases a string with `str::to_lowercase` (the Unicode lowercase
/// mapping); the contract only names the result.
#[verifier::external_body]
fn to_lowercase(s: &str) -> (r: String)
    ensures
        r@ == lowercase(s@),
{
    s.to_lowercase()
}

/// The key under which a requested method is looked up: its name, lower-cased.
pub fn method_name(requested: &str) -> (name: String)
    ensures
        name@ == lowercase(requested@),
{
    to_lowercase(requested)
}

impl World {
    /// The registry invariant holds.
    pub open spec fn wf(&self) -> bool {
        registry_ok(self@.clients)
    }

    /// A new world of the given name and settings, with a freshly generated
    /// id, not started, with no client, nothing to broadcast and no handler.
    pub fn new(name: &str, config: &WorldConfig) -> (w: World)
        ensures
            w.wf(),
            is_generated_id(w@.id),
            w@.name == name@,
            w@.config == config@,
            !w@.started,
            w@.ticks == 0,
            w@.clients == Map::<Seq<char>, ClientView>::empty(),
            w@.queue == Seq::<(MessageView, FilterView)>::empty(),
            !w@.method_handle,
            !w@.transport_handle,
    {
        let w = World {
            id: generate_id(),
            name: name.to_owned(),
            config: config.copy(),
            started: false,
            ticks: 0,
            clients: Clients::new(),
            queue: Vec::new(),
            method_handle: false,
            transport_handle: false,
        };
        assert(w@.queue =~= Seq::<(MessageView, FilterView)>::empty());
        w
    }

    /// The id of the world.
    pub fn id(&self) -> (id: &String)
        ensures
            id@ == self@.id,
    {
        &self.id
    }

    /// The name of the world.
    pub fn name(&self) -> (name: &String)
        ensures
            name@ == self@.name,
    {
        &self.name
    }

    /// The settings the world was created with.
    pub fn config(&self) -> (config: &WorldConfig)
        ensures
            config@ == self@.config,
    {
        &self.config
    }

    /// The radius of the square of chunks preloaded around the origin: the
    /// configured radius as an `i32` (a radius above `i32::MAX` wraps to a
    /// negative one, which preloads nothing).
    pub open spec fn preload_radius(&self) -> int {
        (self@.config.preload_radius as i32) as int
    }

    /// The shape of the world's chunks, from its settings.
    pub open spec fn chunk_params(&self) -> ChunkParams {
        ChunkParams {
            max_height: self@.config.max_height,
            sub_chunks: self@.config.sub_chunks,
            size: self@.config.chunk_size,
        }
    }

    /// The chunks of the preload square of the configured radius, in the
    /// order in which they are visited (`cz` fastest).
    pub fn preload_square(&self) -> (coords: Vec<Vec2<i32>>)
        requires
            // the square's size fits in a `usize`
            usize::BITS == 64 || self.preload_radius() <= 32767,
        ensures
            coords@.len() == square_len(self.preload_radius()),
            forall|k: int| 0 <= k < coords@.len() ==> #[trigger] coords@[k] == square_coord(self.preload_radius(), k),
    {
        let radius: i32 = self.config.preload_radius as i32;
        preload_coords(radius)
    }

    /// The chunks to create while preloading: one, with a freshly generated
    /// id and the configured shape, for each chunk of the preload square whose
    /// flag in `within` (whether it lies inside the world) is set, in the
    /// order of the square. Preloaded chunks are postponed in the chunk
    /// pipeline, which may not change once the world has started.
    pub fn preload(&self, within: &Vec<bool>) -> (seeds: Vec<ChunkSeed>)
        requires
            usize::BITS == 64 || self.preload_radius() <= 32767,
            within@.len() == square_len(self.preload_radius()),
            !self@.started || forall|i: int| 0 <= i < within@.len() ==> !#[trigger] within@[i],
        ensures
            seeds@.map_values(|s: ChunkSeed| s.coords) == selected(
                Seq::new(square_len(self.preload_radius()) as nat, |k: int| square_coord(self.preload_radius(), k)),
                within@,
                within@.len() as int,
            ),
            forall|i: int| 0 <= i < seeds@.len() ==> is_generated_id(#[trigger] seeds@[i].id@),
            forall|i: int| 0 <= i < seeds@.len() ==> (#[trigger] seeds@[i]).params == self.chunk_params(),
    {
        let coords = self.preload_square();
        let params = ChunkParams {
            max_height: self.config.max_height,
            sub_chunks: self.config.sub_chunks,
            size: self.config.chunk_size,
        };
        assert(coords@ =~= Seq::new(square_len(self.preload_radius()) as nat, |k: int| square_coord(self.preload_radius(), k)));
        preload_plan(&coords, within, params)
    }

    /// Whether the world has started ticking.
    pub fn started(&self) -> (started: bool)
        ensures
            started == self@.started,
    {
        self.started
    }

    /// Whether the world has not started ticking yet: the terrain and the
    /// chunk pipeline may only be changed while this holds.
    pub fn unstarted(&self) -> (b: bool)
        ensures
            b == !self@.started,
    {
        !self.started
    }

    /// How many ticks the world has run (stopping at `u64::MAX`).
    pub fn ticks(&self) -> (n: u64)
        ensures
            n == self@.ticks,
    {
        self.ticks
    }

    /// The connected clients.
    pub fn clients(&self) -> (c: &Clients)
        ensures
            c@ == self@.clients,
    {
        &self.clients
    }

    /// The messages waiting to be broadcast, oldest first.
    pub fn queue(&self) -> (q: &Vec<(Message, ClientFilter)>)
        ensures
            queue_view(q@) == self@.queue,
    {
        &self.queue
    }

    /// Hands out the messages waiting to be broadcast, oldest first, and
    /// empties the queue.
    pub fn take_messages(&mut self) -> (q: Vec<(Message, ClientFilter)>)
        ensures
            queue_view(q@) == old(self)@.queue,
            final(self)@ == (WorldView { queue: Seq::empty(), ..old(self)@ }),
            old(self).wf() ==> final(self).wf(),
    {
        let mut q: Vec<(Message, ClientFilter)> = Vec::new();
        std::mem::swap(&mut q, &mut self.queue);
        assert(queue_view(self.queue@) =~= Seq::<(MessageView, FilterView)>::empty());
        q
    }

    /// Whether no client is connected.
    pub fn is_empty(&self) -> (b: bool)
        requires
            self.wf(),
        ensures
            b <==> self@.clients.dom() == Set::<Seq<char>>::empty(),
    {
        self.clients.is_empty()
    }

    /// Queues a message for the clients that the filter selects.
    pub fn broadcast(&mut self, data: Message, filter: ClientFilter)
        ensures
            final(self)@ == (WorldView { queue: old(self)@.queue.push((data@, filter@)), ..old(self)@ }),
            old(self).wf() ==> final(self).wf(),
    {
        self.queue.push((data, filter));
        assert(queue_view(self.queue@) =~= queue_view(old(self).queue@).push((data@, filter@)));
    }

    /// Installs the handler of `Method` requests.
    pub fn set_method_handle(&mut self)
        ensures
            final(self)@ == (WorldView { method_handle: true, ..old(self)@ }),
            old(self).wf() ==> final(self).wf(),
    {
        self.method_handle = true;
    }

    /// Installs the handler of `Transport` requests.
    pub fn set_transport_handle(&mut self)
        ensures
            final(self)@ == (WorldView { transport_handle: true, ..old(self)@ }),
            old(self).wf() ==> final(self).wf(),
    {
        self.transport_handle = true;
    }

    /// One tick: the world counts as started from now on, one more tick has
    /// run, and its systems run (the result is `true`) only when some client
    /// is connected.
    pub fn tick(&mut self) -> (run: bool)
        requires
            old(self).wf(),
        ensures
            final(self)@ == world_after_tick(old(self)@),
            final(self).wf(),
            run <==> old(self)@.clients.dom() != Set::<Seq<char>>::empty(),
    {
        if !self.started {
            self.started = true;
        }
        if self.ticks < u64::MAX {
            self.ticks = self.ticks + 1;
        }
        !self.is_empty()
    }

    /// The peers a new client is told about: every connected client, by id.
    fn peer_list(&self) -> (peers: Vec<PeerProtocol>)
        requires
            self.wf(),
        ensures
            lists_clients_once(peers@.map_values(|p: PeerProtocol| p@), self@.clients),
    {
        let ids = self.clients.ids();
        let mut peers: Vec<PeerProtocol> = Vec::new();
        let mut i: usize = 0;
        while i < ids.len()
            invariant
                i <= ids@.len(),
                peers@.len() == i,
                forall|j: int| 0 <= j < i ==> (#[trigger] peers@[j])@ == (PeerView { id: ids@[j]@, username: Seq::empty() }),
            decreases ids@.len() - i,
        {
            peers.push(PeerProtocol { id: ids[i].clone(), username: String::new() });
            i = i + 1;
        }
        let ghost pv = peers@.map_values(|p: PeerProtocol| p@);
        assert forall|k: Seq<char>| #[trigger] self@.clients.contains_key(k) implies exists|i: int| 0 <= i < pv.len() && #[trigger] pv[i].id == k by {
            let i = choose|i: int| 0 <= i < ids@.len() && #[trigger] ids@[i]@ == k;
            assert(pv[i].id == ids@[i]@);
        }
        assert forall|i: int, j: int| 0 <= i < j < pv.len() implies #[trigger] pv[i].id != #[trigger] pv[j].id by {
            assert(pv[i].id == ids@[i]@ && pv[j].id == ids@[j]@);
        }
        assert forall|i: int| 0 <= i < pv.len() implies self@.clients.contains_key(#[trigger] pv[i].id) by {
            assert(pv[i].id == ids@[i]@);
        }
        peers
    }

    /// Connects a client: files it under its id with the entity that stands
    /// for it, queues a `Join` message naming it for every client, and returns
    /// the `Init` message for it: the given JSON, every client connected before
    /// it as a peer, and every entity of `rows` whose metadata holds something.
    pub fn add_client(
        &mut self,
        id: &str,
        username: &str,
        entity: EntityId,
        init_json: String,
        rows: &Vec<EntityRow>,
    ) -> (init: Message)
        requires
            old(self).wf(),
        ensures
            final(self).wf(),
            final(self)@ == world_after_join(old(self)@, id@, username@, entity),
            init@.kind == MessageType::Init,
            init@.json == init_json@,
            init@.text == Seq::<char>::empty(),
            init@.chat is None,
            init@.updates == Seq::<VoxelUpdate>::empty(),
            lists_clients_once(init@.peers, old(self)@.clients),
            init@.entities == listed_entities(rows@.map_values(|r: EntityRow| r@), rows@.len() as int),
    {
        let peers = self.peer_list();
        let mut entities: Vec<EntityProtocol> = Vec::new();
        let ghost rv = rows@.map_values(|r: EntityRow| r@);
        let mut i: usize = 0;
        while i < rows.len()
            invariant
                i <= rows@.len(),
                rv == rows@.map_values(|r: EntityRow| r@),
                entities@.map_values(|e: EntityProtocol| e@) == listed_entities(rv, i as int),
            decreases rows@.len() - i,
        {
            let row = &rows[i];
            match &row.metadata {
                Some(m) => {
                    let e = EntityProtocol { id: row.id.clone(), etype: row.etype.clone(), metadata: Some(m.clone()) };
                    assert(e@ == rv[i as int]);
                    entities.push(e);
                    assert(entities@.map_values(|e: EntityProtocol| e@) =~= listed_entities(rv, i as int).push(rv[i as int]));
                },
                None => {},
            }
            i = i + 1;
        }
        let client = Client { id: id.to_owned(), entity, username: username.to_owned() };
        let _ = self.clients.insert(id.to_owned(), client);
        self.broadcast(Message::with_text(MessageType::Join, id.to_owned()), ClientFilter::All);
        let mut init = Message::new(MessageType::Init);
        init.json = init_json;
        init.peers = peers;
        init.entities = entities;
        init
    }

    /// Takes a client out of the registry and returns the entity that stood
    /// for it, if it was connected; nothing is queued.
    pub fn take_client(&mut self, id: &str) -> (entity: Option<EntityId>)
        requires
            old(self).wf(),
        ensures
            final(self).wf(),
            entity is Some <==> old(self)@.clients.contains_key(id@),
            entity matches Some(e) ==> e == old(self)@.clients[id@].entity,
            final(self)@ == (WorldView { clients: old(self)@.clients.remove(id@), ..old(self)@ }),
    {
        match self.clients.remove(id) {
            Some(client) => Some(client.entity),
            None => None,
        }
    }

    /// Queues a `Leave` message naming the client for every client.
    pub fn announce_leave(&mut self, id: &str)
        ensures
            final(self)@ == (WorldView {
                queue: old(self)@.queue.push((text_message(MessageType::Leave, id@), FilterView::All)),
                ..old(self)@
            }),
            old(self).wf() ==> final(self).wf(),
    {
        self.broadcast(Message::with_text(MessageType::Leave, id.to_owned()), ClientFilter::All);
    }

    /// Disconnects a client: takes it out of the registry and, if it was
    /// connected, queues a `Leave` message naming it for every client and
    /// returns the entity that stood for it, to be deleted.
    pub fn remove_client(&mut self, id: &str) -> (entity: Option<EntityId>)
        requires
            old(self).wf(),
        ensures
            final(self).wf(),
            entity is Some <==> old(self)@.clients.contains_key(id@),
            entity matches Some(e) ==> e == old(self)@.clients[id@].entity,
            final(self)@ == world_after_leave(old(self)@, id@),
    {
        let entity = self.take_client(id);
        if entity.is_some() {
            self.announce_leave(id);
        }
        entity
    }

    /// Handles a request from a client. A `Peer` request from a connected
    /// client renames it after the last peer it reports; a chat line that is
    /// not a command (it does not start with `/`) is queued for every client;
    /// what is left to do (moving the client's entity, its chunk requests,
    /// voxel updates, calling a handler) is returned.
    pub fn on_request(&mut self, client_id: &str, data: Message) -> (r: Reaction)
        requires
            old(self).wf(),
        ensures
            final(self).wf(),
            final(self)@ == world_after_request(old(self)@, client_id@, data@),
            r@ == reaction_to_request(old(self)@, client_id@, data@),
    {
        match data.kind {
            MessageType::Peer => self.on_peer(client_id, data),
            MessageType::Load => self.on_load(client_id, data),
            MessageType::Unload => self.on_unload(client_id, data),
            MessageType::Method => self.on_method(data),
            MessageType::Chat => {
                self.on_chat(data);
                Reaction::Done
            },
            MessageType::Update => self.on_update(data),
            MessageType::Transport => if self.transport_handle {
                Reaction::Transport { json: data.json }
            } else {
                Reaction::NoTransportHandler
            },
            kind => Reaction::Unknown { kind },
        }
    }

    /// Handles a `Peer` request: a connected client takes the user name of the
    /// last peer reported, and its entity is handed back to be moved.
    pub fn on_peer(&mut self, client_id: &str, data: Message) -> (r: Reaction)
        requires
            old(self).wf(),
        ensures
            final(self).wf(),
            final(self)@ == world_after_peer(old(self)@, client_id@, data@),
            r@ == reaction_to_peer(old(self)@, client_id@),
    {
        let (entity, cid) = match self.clients.get(client_id) {
            Some(c) => (c.entity, c.id.clone()),
            None => {
                return Reaction::UnknownClient;
            },
        };
        let n: usize = data.peers.len();
        if n > 0 {
            let username = data.peers[n - 1].username.clone();
            assert(data@.peers.last().username == username@);
            let _ = self.clients.insert(client_id.to_owned(), Client { id: cid, entity, username });
        }
        Reaction::Peer { entity }
    }

    /// Handles a `Load` request: the requesting client's entity and the JSON
    /// body, whose chunks are to be added to its chunk requests.
    pub fn on_load(&self, client_id: &str, data: Message) -> (r: Reaction)
        ensures
            r@ == reaction_to_load(self@, client_id@, data@),
    {
        match self.clients.get(client_id) {
            Some(c) => Reaction::Load { entity: c.entity, json: data.json },
            None => Reaction::UnknownClient,
        }
    }

    /// Handles an `Unload` request: the requesting client's entity and the JSON
    /// body, whose chunks are to be taken out of its chunk requests.
    pub fn on_unload(&self, client_id: &str, data: Message) -> (r: Reaction)
        ensures
            r@ == reaction_to_unload(self@, client_id@, data@),
    {
        match self.clients.get(client_id) {
            Some(c) => Reaction::Unload { entity: c.entity, json: data.json },
            None => Reaction::UnknownClient,
        }
    }

    /// Handles a `Method` request: the JSON body for the method handler, or
    /// the refusal when none is installed.
    pub fn on_method(&self, data: Message) -> (r: Reaction)
        ensures
            r@ == reaction_to_method(self@, data@),
    {
        if self.method_handle {
            Reaction::Method { json: data.json }
        } else {
            Reaction::NoMethodHandler
        }
    }

    /// Handles an `Update` request: its voxel updates, to be queued (see
    /// [`enqueue_updates`]).
    pub fn on_update(&self, data: Message) -> (r: Reaction)
        ensures
            r@ == reaction_to_update(data@),
    {
        Reaction::Update { updates: data.updates }
    }

    /// Handles a chat message: a line that is not a command (it does not start
    /// with `/`) is queued for every client.
    pub fn on_chat(&mut self, data: Message)
        requires
            old(self).wf(),
        ensures
            final(self).wf(),
            final(self)@ == world_after_chat(old(self)@, data@),
    {
        let command = match &data.chat {
            Some(chat) => {
                let body = chat.body.as_str();
                Some(!body.is_empty() && body.get_char(0) == '/')
            },
            None => None,
        };
        match command {
            Some(false) => self.broadcast(data, ClientFilter::All),
            _ => {},
        }
    }
}

} // verus!