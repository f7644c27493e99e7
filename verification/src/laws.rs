use vstd::prelude::*;

use crate::clients::{ClientView, EntityId};
use crate::messages::{text_message, FilterView, MessageType, MessageView, VoxelUpdate};
use crate::preload::{in_square, selected, square_len, square_side};
use crate::vec::{Vec2, Vec3};
use crate::world::{
    is_command, reaction_to_load, reaction_to_method, reaction_to_peer, reaction_to_request,
    reaction_to_transport, reaction_to_unload, reaction_to_update, registry_ok, world_after_chat,
    world_after_join, world_after_leave, world_after_peer, world_after_request, world_after_tick,
    is_due, queued_updates, ReactionView, World, WorldView,
};

verus! {

/// A client that has just joined is found under its id, with its entity and
/// user name, and the last queued message is the `Join` naming it.
pub proof fn law_joined_client_is_found(w: WorldView, id: Seq<char>, username: Seq<char>, entity: EntityId)
    ensures
        world_after_join(w, id, username, entity).clients.contains_key(id),
        world_after_join(w, id, username, entity).clients[id] == (ClientView { id, entity, username }),
        world_after_join(w, id, username, entity).queue.last() == (text_message(MessageType::Join, id), FilterView::All),
{
}

/// A client that joins and then leaves leaves the registry as it found it,
/// and the clients are told of both, `Join` first.
pub proof fn law_join_then_leave(w: WorldView, id: Seq<char>, username: Seq<char>, entity: EntityId)
    requires
        !w.clients.contains_key(id),
    ensures
        world_after_leave(world_after_join(w, id, username, entity), id).clients == w.clients,
        world_after_leave(world_after_join(w, id, username, entity), id).queue == w.queue.push(
            (text_message(MessageType::Join, id), FilterView::All),
        ).push((text_message(MessageType::Leave, id), FilterView::All)),
{
    assert(world_after_leave(world_after_join(w, id, username, entity), id).clients =~= w.clients);
}

/// The leaving of a client that is not connected changes nothing and tells no one.
pub proof fn law_leave_of_stranger_is_silent(w: WorldView, id: Seq<char>)
    requires
        !w.clients.contains_key(id),
    ensures
        world_after_leave(w, id) == w,
{
    assert(w.clients.remove(id) =~= w.clients);
}

/// Joining, leaving and requests keep the registry invariant: finitely many
/// clients, each filed under its own id.
pub proof fn law_registry_invariant_kept(
    w: WorldView,
    id: Seq<char>,
    username: Seq<char>,
    entity: EntityId,
    m: MessageView,
)
    requires
        registry_ok(w.clients),
    ensures
        registry_ok(world_after_join(w, id, username, entity).clients),
        registry_ok(world_after_leave(w, id).clients),
        registry_ok(world_after_request(w, id, m).clients),
{
}

/// Once started, a world stays started: a tick starts it for good (a second
/// tick only counts one more tick), and joins, leaves and requests never stop
/// it nor change its tick count.
pub proof fn law_started_for_good(w: WorldView, id: Seq<char>, username: Seq<char>, entity: EntityId, m: MessageView)
    ensures
        world_after_tick(w).started,
        world_after_tick(world_after_tick(w)) == (WorldView { ticks: world_after_tick(world_after_tick(w)).ticks, ..world_after_tick(w) }),
        world_after_tick(w).ticks >= w.ticks,
        world_after_join(w, id, username, entity).started == w.started,
        world_after_leave(w, id).started == w.started,
        world_after_request(w, id, m).started == w.started,
        world_after_join(w, id, username, entity).ticks == w.ticks,
        world_after_leave(w, id).ticks == w.ticks,
        world_after_request(w, id, m).ticks == w.ticks,
{
}

/// A request never connects or disconnects a client, nor changes the entity
/// that stands for one; only a `Peer` request changes a user name.
pub proof fn law_requests_keep_membership(w: WorldView, cid: Seq<char>, m: MessageView)
    ensures
        world_after_request(w, cid, m).clients.dom() == w.clients.dom(),
        forall|k: Seq<char>| #[trigger] w.clients.contains_key(k) ==> world_after_request(w, cid, m).clients[k].entity == w.clients[k].entity && world_after_request(w, cid, m).clients[k].id == w.clients[k].id,
        m.kind != MessageType::Peer ==> world_after_request(w, cid, m).clients == w.clients,
{
    if m.kind == MessageType::Peer && w.clients.contains_key(cid) && m.peers.len() > 0 {
        assert(world_after_request(w, cid, m).clients.dom() =~= w.clients.dom());
    }
}

/// A chat line is queued for every client exactly when it is not a command;
/// no other request queues anything.
pub proof fn law_chat_is_broadcast(w: WorldView, cid: Seq<char>, m: MessageView)
    ensures
        m.kind == MessageType::Chat && m.chat is Some && !is_command(m.chat->0.body)
            ==> world_after_request(w, cid, m).queue == w.queue.push((m, FilterView::All)),
        !(m.kind == MessageType::Chat && m.chat is Some && !is_command(m.chat->0.body))
            ==> world_after_request(w, cid, m).queue == w.queue,
{
}

/// A request that names a client (`Peer`, `Load`, `Unload`) from one that is
/// not connected is answered with `UnknownClient` and changes nothing.
pub proof fn law_stranger_requests_refused(w: WorldView, cid: Seq<char>, m: MessageView)
    requires
        !w.clients.contains_key(cid),
        m.kind == MessageType::Peer || m.kind == MessageType::Load || m.kind == MessageType::Unload,
    ensures
        reaction_to_request(w, cid, m) == ReactionView::UnknownClient,
        world_after_request(w, cid, m) == w,
{
}

/// Handling a request has exactly the effect of the handler of its kind:
/// `on_peer`, `on_load`, `on_unload`, `on_method`, `on_chat` and `on_update`
/// (the transport handler being called directly); the load, unload, method
/// and update handlers leave the world unchanged.
pub proof fn law_request_dispatch(w: WorldView, cid: Seq<char>, m: MessageView)
    ensures
        m.kind == MessageType::Peer ==> world_after_request(w, cid, m) == world_after_peer(w, cid, m)
            && reaction_to_request(w, cid, m) == reaction_to_peer(w, cid),
        m.kind == MessageType::Load ==> world_after_request(w, cid, m) == w
            && reaction_to_request(w, cid, m) == reaction_to_load(w, cid, m),
        m.kind == MessageType::Unload ==> world_after_request(w, cid, m) == w
            && reaction_to_request(w, cid, m) == reaction_to_unload(w, cid, m),
        m.kind == MessageType::Method ==> world_after_request(w, cid, m) == w
            && reaction_to_request(w, cid, m) == reaction_to_method(w, m),
        m.kind == MessageType::Chat ==> world_after_request(w, cid, m) == world_after_chat(w, m)
            && reaction_to_request(w, cid, m) == ReactionView::Done,
        m.kind == MessageType::Update ==> world_after_request(w, cid, m) == w
            && reaction_to_request(w, cid, m) == reaction_to_update(m),
        m.kind == MessageType::Transport ==> world_after_request(w, cid, m) == w
            && reaction_to_request(w, cid, m) == reaction_to_transport(w, m),
{
}

/// The world after `k` ticks.
pub open spec fn world_after_ticks(w: WorldView, k: nat) -> WorldView
    decreases k,
{
    if k == 0 {
        w
    } else {
        world_after_tick(world_after_ticks(w, (k - 1) as nat))
    }
}

/// How many times, over the first `k` ticks, a callback set to run every `n`
/// ticks runs: once for each tick whose number is due.
pub open spec fn interval_runs(w: WorldView, k: nat, n: u64) -> nat
    decreases k,
{
    if k == 0 {
        0
    } else {
        interval_runs(w, (k - 1) as nat, n) + if is_due(world_after_ticks(w, k).ticks, n) {
            1nat
        } else {
            0nat
        }
    }
}

/// Each tick counts one more, as long as the count has room.
proof fn lemma_ticks_counted(w: WorldView, k: nat)
    requires
        w.ticks + k <= u64::MAX,
    ensures
        world_after_ticks(w, k).ticks == w.ticks + k,
    decreases k,
{
    if k > 0 {
        lemma_ticks_counted(w, (k - 1) as nat);
    }
}

/// One more tick adds one multiple of `n` exactly when it is one.
proof fn lemma_quotient_step(k: int, n: int)
    requires
        k >= 1,
        n > 0,
    ensures
        k / n == (k - 1) / n + if k % n == 0 { 1int } else { 0int },
{
    let q: int = (k - 1) / n;
    let r: int = (k - 1) % n;
    vstd::arithmetic::div_mod::lemma_fundamental_div_mod(k - 1, n);
    vstd::arithmetic::div_mod::lemma_mod_bound(k - 1, n);
    assert(k - 1 == n * q + r);
    if r == n - 1 {
        assert(k == (q + 1) * n + 0) by (nonlinear_arith)
            requires
                k - 1 == n * q + r,
                r == n - 1,
        ;
        vstd::arithmetic::div_mod::lemma_fundamental_div_mod_converse(k, n, q + 1, 0);
    } else {
        assert(k == q * n + (r + 1)) by (nonlinear_arith)
            requires
                k - 1 == n * q + r,
        ;
        vstd::arithmetic::div_mod::lemma_fundamental_div_mod_converse(k, n, q, r + 1);
    }
}

/// A callback set to run every `n` ticks on a world that has not ticked yet
/// runs `k / n` times (rounded down) over the next `k` ticks.
pub proof fn law_interval_runs(w: WorldView, k: nat, n: u64)
    requires
        w.ticks == 0,
        k <= u64::MAX,
        n > 0,
    ensures
        interval_runs(w, k, n) == k / (n as nat),
    decreases k,
{
    if k > 0 {
        law_interval_runs(w, (k - 1) as nat, n);
        lemma_ticks_counted(w, k);
        lemma_quotient_step(k as int, n as int);
    }
}

/// The entry an update queues: the voxel `(vx, vy, vz)`, in axis order, and
/// its new value.
pub open spec fn voxel_entry(u: VoxelUpdate) -> (Vec3<i32>, u32) {
    (Vec3(u.vx, u.vy, u.vz), u.voxel)
}

/// The entry is that of one of the first `n` updates whose flag is set.
pub open spec fn from_flagged_update(updates: Seq<VoxelUpdate>, within: Seq<bool>, n: int, e: (Vec3<i32>, u32)) -> bool {
    exists|j: int| 0 <= j < n && within[j] && e == #[trigger] voxel_entry(updates[j])
}

/// The entries that voxel updates queue are exactly the updates whose flag is
/// set, each as the voxel `(vx, vy, vz)` in axis order with its new value:
/// every entry comes from a flagged update, every flagged update gives an
/// entry, and the latest flagged update comes first.
pub proof fn law_queued_updates_are_the_flagged_voxels(updates: Seq<VoxelUpdate>, within: Seq<bool>, n: int)
    requires
        0 <= n <= updates.len(),
        updates.len() == within.len(),
    ensures
        forall|k: int| 0 <= k < queued_updates(updates, within, n).len() ==> from_flagged_update(
            updates,
            within,
            n,
            #[trigger] queued_updates(updates, within, n)[k],
        ),
        forall|j: int| 0 <= j < n && #[trigger] within[j] ==> queued_updates(updates, within, n).contains(
            (Vec3(updates[j].vx, updates[j].vy, updates[j].vz), updates[j].voxel),
        ),
        n > 0 && within[n - 1] ==> queued_updates(updates, within, n).len() > 0
            && queued_updates(updates, within, n)[0] == (
            Vec3(updates[n - 1].vx, updates[n - 1].vy, updates[n - 1].vz),
            updates[n - 1].voxel,
        ),
    decreases n,
{
    if n > 0 {
        law_queued_updates_are_the_flagged_voxels(updates, within, n - 1);
        let q = queued_updates(updates, within, n);
        let p = queued_updates(updates, within, n - 1);
        let u = updates[n - 1];
        if within[n - 1] {
            assert(q == seq![(Vec3(u.vx, u.vy, u.vz), u.voxel)] + p);
            assert forall|k: int| 0 <= k < q.len() implies from_flagged_update(updates, within, n, #[trigger] q[k]) by {
                if k == 0 {
                    assert(q[0] == voxel_entry(updates[n - 1]));
                } else {
                    assert(q[k] == p[k - 1]);
                    assert(from_flagged_update(updates, within, n - 1, p[k - 1]));
                }
            }
            assert forall|j: int| 0 <= j < n && #[trigger] within[j] implies q.contains(
                (Vec3(updates[j].vx, updates[j].vy, updates[j].vz), updates[j].voxel),
            ) by {
                if j == n - 1 {
                    assert(q[0] == (Vec3(updates[j].vx, updates[j].vy, updates[j].vz), updates[j].voxel));
                } else {
                    assert(p.contains((Vec3(updates[j].vx, updates[j].vy, updates[j].vz), updates[j].voxel)));
                    let k = choose|k: int| 0 <= k < p.len() && p[k] == (Vec3(updates[j].vx, updates[j].vy, updates[j].vz), updates[j].voxel);
                    assert(q[k + 1] == p[k]);
                }
            }
        } else {
            assert(q == p);
            assert forall|k: int| 0 <= k < q.len() implies from_flagged_update(updates, within, n, #[trigger] q[k]) by {
                assert(from_flagged_update(updates, within, n - 1, p[k]));
            }
        }
    }
}

/// Whenever a connected client leaves, whatever was queued before stays
/// queued, and one more message is queued for every client: a `Leave`
/// carrying the client's id; the client is out of the registry and every
/// other client stays.
pub proof fn law_leave_is_announced(w: WorldView, id: Seq<char>)
    requires
        w.clients.contains_key(id),
    ensures
        world_after_leave(w, id).queue.len() == w.queue.len() + 1,
        world_after_leave(w, id).queue.subrange(0, w.queue.len() as int) == w.queue,
        world_after_leave(w, id).queue.last().0.kind == MessageType::Leave,
        world_after_leave(w, id).queue.last().0.text == id,
        world_after_leave(w, id).queue.last().1 == FilterView::All,
        !world_after_leave(w, id).clients.contains_key(id),
        forall|k: Seq<char>| k != id && #[trigger] w.clients.contains_key(k) ==> world_after_leave(w, id).clients.contains_key(k)
            && world_after_leave(w, id).clients[k] == w.clients[k],
{
    assert(world_after_leave(w, id).queue.subrange(0, w.queue.len() as int) =~= w.queue);
}

/// A chat line whose first character is not `/` (an empty line included) is
/// queued, unchanged, for every client after whatever was queued before; a
/// line whose first character is `/` is not queued. The registry never changes.
pub proof fn law_chat_lines_by_first_character(w: WorldView, cid: Seq<char>, m: MessageView)
    requires
        m.kind == MessageType::Chat,
        m.chat is Some,
    ensures
        (m.chat->0.body.len() == 0 || m.chat->0.body[0] != '/') ==> world_after_request(w, cid, m).queue
            == w.queue.push((m, FilterView::All)),
        (m.chat->0.body.len() > 0 && m.chat->0.body[0] == '/') ==> world_after_request(w, cid, m).queue == w.queue,
        world_after_request(w, cid, m).clients == w.clients,
{
}

/// The JSON of a `Load`, `Unload`, `Method` or `Transport` request is handed
/// back exactly as it came: to the chunk-request owner for a connected
/// client, and to the installed handler; without a handler the request is
/// refused.
pub proof fn law_request_json_handed_back_unchanged(w: WorldView, cid: Seq<char>, m: MessageView)
    ensures
        m.kind == MessageType::Transport && w.transport_handle ==> reaction_to_request(w, cid, m)
            == (ReactionView::Transport { json: m.json }),
        m.kind == MessageType::Transport && !w.transport_handle ==> reaction_to_request(w, cid, m)
            == ReactionView::NoTransportHandler,
        m.kind == MessageType::Method && w.method_handle ==> reaction_to_request(w, cid, m)
            == (ReactionView::Method { json: m.json }),
        m.kind == MessageType::Method && !w.method_handle ==> reaction_to_request(w, cid, m)
            == ReactionView::NoMethodHandler,
        m.kind == MessageType::Load && w.clients.contains_key(cid) ==> reaction_to_request(w, cid, m)
            == (ReactionView::Load { entity: w.clients[cid].entity, json: m.json }),
        m.kind == MessageType::Unload && w.clients.contains_key(cid) ==> reaction_to_request(w, cid, m)
            == (ReactionView::Unload { entity: w.clients[cid].entity, json: m.json }),
        m.kind == MessageType::Update ==> reaction_to_request(w, cid, m)
            == (ReactionView::Update { updates: m.updates }),
{
}

/// The preload square is the one of the configured radius: a radius up to
/// `i32::MAX` is taken as it is, so the square holds `(2r+1)²` chunks and every
/// chunk with both coordinates in `-r..=r`; a larger radius wraps to a
/// negative one and nothing is preloaded.
pub proof fn law_preload_radius_is_configured(w: World)
    ensures
        w@.config.preload_radius <= i32::MAX ==> w.preload_radius() == w@.config.preload_radius as int,
        w@.config.preload_radius <= i32::MAX ==> square_len(w.preload_radius()) == (2 * w@.config.preload_radius + 1) * (2 * w@.config.preload_radius + 1),
        w@.config.preload_radius <= i32::MAX ==> forall|c: Vec2<i32>|
            -(w@.config.preload_radius as int) <= c.0 <= w@.config.preload_radius && -(w@.config.preload_radius as int) <= c.1
                <= w@.config.preload_radius ==> #[trigger] in_square(w.preload_radius(), c),
        w@.config.preload_radius > i32::MAX ==> w.preload_radius() < 0 && square_len(w.preload_radius()) == 0,
{
    let x: u32 = w@.config.preload_radius;
    assert(x > 0x7fff_ffff ==> (x as i32) < 0) by (bit_vector);
    assert(x <= 0x7fff_ffff ==> (x as i32) == x) by (bit_vector);
    if x <= i32::MAX {
        assert(square_side(x as int) == 2 * x + 1);
        crate::preload::law_preload_square(x as int);
    }
}

/// Whenever a client joins, whatever was queued before stays queued and one
/// more message is queued for every client: a `Join` carrying its id; the
/// client is filed under its id with its entity and user name, and every other
/// client stays.
pub proof fn law_join_is_announced(w: WorldView, id: Seq<char>, username: Seq<char>, entity: EntityId)
    ensures
        world_after_join(w, id, username, entity).queue.len() == w.queue.len() + 1,
        world_after_join(w, id, username, entity).queue.subrange(0, w.queue.len() as int) == w.queue,
        world_after_join(w, id, username, entity).queue.last().0.kind == MessageType::Join,
        world_after_join(w, id, username, entity).queue.last().0.text == id,
        world_after_join(w, id, username, entity).queue.last().1 == FilterView::All,
        world_after_join(w, id, username, entity).clients[id].id == id,
        world_after_join(w, id, username, entity).clients[id].entity == entity,
        world_after_join(w, id, username, entity).clients[id].username == username,
        forall|k: Seq<char>| k != id && #[trigger] w.clients.contains_key(k) ==> world_after_join(w, id, username, entity).clients.contains_key(k)
            && world_after_join(w, id, username, entity).clients[k] == w.clients[k],
{
    assert(world_after_join(w, id, username, entity).queue.subrange(0, w.queue.len() as int) =~= w.queue);
}

/// A `Peer` request from a connected client that reports peers gives the
/// client the user name of the last peer reported, keeping its id and
/// entity; every other client and the queue stay as they were.
pub proof fn law_peer_takes_last_name(w: WorldView, cid: Seq<char>, m: MessageView)
    requires
        m.kind == MessageType::Peer,
        w.clients.contains_key(cid),
        m.peers.len() > 0,
    ensures
        world_after_request(w, cid, m).clients.contains_key(cid),
        world_after_request(w, cid, m).clients[cid].username == m.peers[m.peers.len() - 1].username,
        world_after_request(w, cid, m).clients[cid].id == w.clients[cid].id,
        world_after_request(w, cid, m).clients[cid].entity == w.clients[cid].entity,
        forall|k: Seq<char>| k != cid && #[trigger] w.clients.contains_key(k) ==> world_after_request(w, cid, m).clients[k] == w.clients[k],
        world_after_request(w, cid, m).queue == w.queue,
        reaction_to_request(w, cid, m) == (ReactionView::Peer { entity: w.clients[cid].entity }),
{
}

/// The coordinate is one of the first `n` whose flag is set.
pub open spec fn is_flagged_coord(coords: Seq<Vec2<i32>>, within: Seq<bool>, n: int, c: Vec2<i32>) -> bool {
    exists|j: int| 0 <= j < n && #[trigger] within[j] && coords[j] == c
}

/// The chunks selected for preloading are exactly the flagged ones: each
/// selected chunk is a flagged coordinate, each flagged coordinate is
/// selected, and there are no more selected chunks than coordinates.
pub proof fn law_preload_selects_the_flagged(coords: Seq<Vec2<i32>>, within: Seq<bool>, n: int)
    requires
        0 <= n <= coords.len(),
        coords.len() == within.len(),
    ensures
        selected(coords, within, n).len() <= n,
        forall|k: int| 0 <= k < selected(coords, within, n).len() ==> is_flagged_coord(
            coords,
            within,
            n,
            #[trigger] selected(coords, within, n)[k],
        ),
        forall|j: int| 0 <= j < n && #[trigger] within[j] ==> selected(coords, within, n).contains(coords[j]),
    decreases n,
{
    if n > 0 {
        law_preload_selects_the_flagged(coords, within, n - 1);
        let q = selected(coords, within, n);
        let p = selected(coords, within, n - 1);
        if within[n - 1] {
            assert(q == p.push(coords[n - 1]));
            assert forall|k: int| 0 <= k < q.len() implies is_flagged_coord(coords, within, n, #[trigger] q[k]) by {
                if k == p.len() {
                    assert(within[n - 1] && coords[n - 1] == q[k]);
                } else {
                    assert(q[k] == p[k]);
                    assert(is_flagged_coord(coords, within, n - 1, p[k]));
                }
            }
            assert forall|j: int| 0 <= j < n && #[trigger] within[j] implies q.contains(coords[j]) by {
                if j == n - 1 {
                    assert(q[p.len() as int] == coords[j]);
                } else {
                    let k = choose|k: int| 0 <= k < p.len() && p[k] == coords[j];
                    assert(q[k] == p[k]);
                }
            }
        } else {
            assert(q == p);
            assert forall|k: int| 0 <= k < q.len() implies is_flagged_coord(coords, within, n, #[trigger] q[k]) by {
                assert(is_flagged_coord(coords, within, n - 1, p[k]));
            }
        }
    }
}

} // verus!
