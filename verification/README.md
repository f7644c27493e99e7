# voxelize_world

The world of a voxel game server, verified with Verus.

`src/` is the verified library:

- `config.rs` — `WorldConfig`, the settings a world is created with.
- `world.rs` — `World`: its id, name and settings, whether it has started, the client
  registry, the broadcast queue and which request handlers are installed;
  joining and leaving clients, the routing of client requests to their
  handlers (`on_request`, `on_peer`, `on_load`, `on_unload`, `on_method`,
  `on_chat`, `on_update`; each returns a `Reaction` for what is left to the
  host), ticks and the tick count, the preload of the configured square, callbacks due on an interval, the spawn
  decision, voxel update queueing and the lower-casing of method names.
- `clients.rs` — `Clients`, the registry of clients by id, kept in a
  `hashbrown::HashMap` behind a few trusted wrappers.
- `messages.rs` — protocol messages, client filters and their views.
- `schedule.rs` — the systems one tick registers with the dispatcher, in
  order, and the proofs that they meet the dispatcher builder's documented
  conditions (no name registered twice, every dependency registered before),
  stated over the library's own model of those conditions, and of exactly
  when the closing systems are accepted after the user's modifier.
- `preload.rs` — the square of chunks preloaded around the origin and the
  plan of chunks to create in it.
- `ids.rs` — fresh identifiers from `nanoid`.
- `comps.rs`, `vec.rs` — the current-chunk component and coordinate pairs.
- `laws.rs` — properties relating several operations (joins and leaves,
  request dispatch, ticks, interval callbacks).

`app/` is the unverified host: the `specs` entity-component store, JSON
parsing of requests with `serde_json`, the save folder and entity files, and
the method and transport handlers.
