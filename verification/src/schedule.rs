use vstd::prelude::*;

verus! {

/// The systems that one tick of the world runs.
#[derive(Clone, Copy, Debug, PartialEq, Eq, Structural)]
pub enum SystemKind {
    UpdateStats,
    EntityMeta,
    Search,
    CurrentChunk,
    ChunkUpdating,
    ChunkRequests,
    ChunkPipelining,
    ChunkMeshing,
    ChunkSending,
    ChunkSaving,
    Physics,
    EntitiesSaving,
    EntitiesSending,
    PeersSending,
    Broadcast,
    ClearCollisions,
}

/// The name under which a system is registered with the dispatcher.
pub open spec fn system_name(k: SystemKind) -> Seq<char> {
    match k {
        SystemKind::UpdateStats => "update-stats"@,
        SystemKind::EntityMeta => "entity-meta"@,
        SystemKind::Search => "search"@,
        SystemKind::CurrentChunk => "current-chunking"@,
        SystemKind::ChunkUpdating => "chunk-updating"@,
        SystemKind::ChunkRequests => "chunk-requests"@,
        SystemKind::ChunkPipelining => "chunk-pipelining"@,
        SystemKind::ChunkMeshing => "chunk-meshing"@,
        SystemKind::ChunkSending => "chunk-sending"@,
        SystemKind::ChunkSaving => "chunk-saving"@,
        SystemKind::Physics => "physics"@,
        SystemKind::EntitiesSaving => "entities-saving"@,
        SystemKind::EntitiesSending => "entities-sending"@,
        SystemKind::PeersSending => "peers-sending"@,
        SystemKind::Broadcast => "broadcast"@,
        SystemKind::ClearCollisions => "clear-collisions"@,
    }
}

impl SystemKind {
    /// The name under which the system is registered with the dispatcher.
    pub fn name(&self) -> (s: &'static str)
        ensures
            s@ == system_name(*self),
    {
        match self {
            SystemKind::UpdateStats => "update-stats",
            SystemKind::EntityMeta => "entity-meta",
            SystemKind::Search => "search",
            SystemKind::CurrentChunk => "current-chunking",
            SystemKind::ChunkUpdating => "chunk-updating",
            SystemKind::ChunkRequests => "chunk-requests",
            SystemKind::ChunkPipelining => "chunk-pipelining",
            SystemKind::ChunkMeshing => "chunk-meshing",
            SystemKind::ChunkSending => "chunk-sending",
            SystemKind::ChunkSaving => "chunk-saving",
            SystemKind::Physics => "physics",
            SystemKind::EntitiesSaving => "entities-saving",
            SystemKind::EntitiesSending => "entities-sending",
            SystemKind::PeersSending => "peers-sending",
            SystemKind::Broadcast => "broadcast",
            SystemKind::ClearCollisions => "clear-collisions",
        }
    }
}

/// One registration with the dispatcher: a system and the systems it runs after.
pub struct Stage {
    pub system: SystemKind,
    pub deps: Vec<SystemKind>,
}

/// A registration by names: the system's name and the names it runs after.
pub type NamedStage = (Seq<char>, Seq<Seq<char>>);

/// The value of a list of [`Stage`]s.
pub open spec fn stages_view(s: Seq<Stage>) -> Seq<(SystemKind, Seq<SystemKind>)> {
    s.map_values(|st: Stage| (st.system, st.deps@))
}

/// A schedule by names.
pub open spec fn named(s: Seq<(SystemKind, Seq<SystemKind>)>) -> Seq<NamedStage> {
    s.map_values(
        |st: (SystemKind, Seq<SystemKind>)|
            (system_name(st.0), st.1.map_values(|d: SystemKind| system_name(d))),
    )
}

/// The systems registered before the user's dispatcher modifier runs, in order.
pub open spec fn core_schedule() -> Seq<(SystemKind, Seq<SystemKind>)> {
    seq![
        (SystemKind::UpdateStats, seq![]),
        (SystemKind::EntityMeta, seq![]),
        (SystemKind::Search, seq![SystemKind::EntityMeta]),
        (SystemKind::CurrentChunk, seq![]),
        (SystemKind::ChunkUpdating, seq![SystemKind::CurrentChunk]),
        (SystemKind::ChunkRequests, seq![SystemKind::CurrentChunk]),
        (SystemKind::ChunkPipelining, seq![SystemKind::ChunkRequests]),
        (SystemKind::ChunkMeshing, seq![SystemKind::ChunkPipelining]),
        (SystemKind::ChunkSending, seq![SystemKind::ChunkMeshing]),
        (SystemKind::ChunkSaving, seq![SystemKind::ChunkPipelining]),
        (SystemKind::Physics, seq![SystemKind::UpdateStats]),
    ]
}

/// The systems registered after the user's dispatcher modifier runs, in order.
pub open spec fn tail_schedule() -> Seq<(SystemKind, Seq<SystemKind>)> {
    seq![
        (SystemKind::EntitiesSaving, seq![SystemKind::EntityMeta]),
        (SystemKind::EntitiesSending, seq![SystemKind::EntitiesSaving]),
        (SystemKind::PeersSending, seq![]),
        (
            SystemKind::Broadcast,
            seq![SystemKind::EntitiesSending, SystemKind::PeersSending, SystemKind::ChunkSending],
        ),
        (SystemKind::ClearCollisions, seq![SystemKind::EntitiesSending]),
    ]
}

/// Whether registering the stages in order is accepted by the dispatcher
/// builder, which refuses a name that is already registered and a dependency
/// that is not registered yet.
pub open spec fn accepted(s: Seq<NamedStage>) -> bool {
    names_unique(s) && deps_registered_before(s)
}

/// No name is registered twice.
pub open spec fn names_unique(s: Seq<NamedStage>) -> bool {
    forall|i: int, j: int| 0 <= i < j < s.len() ==> #[trigger] s[i].0 != #[trigger] s[j].0
}

/// Every dependency names a system registered before the one that has it.
pub open spec fn deps_registered_before(s: Seq<NamedStage>) -> bool {
    forall|i: int, d: int|
        0 <= i < s.len() && 0 <= d < s[i].1.len() ==> registered_before(s, i, #[trigger] s[i].1[d])
}

/// The name is registered in the sequence before position `i`.
pub open spec fn registered_before(s: Seq<NamedStage>, i: int, name: Seq<char>) -> bool {
    exists|j: int| 0 <= j < i && #[trigger] s[j].0 == name
}

/// No dependency.
fn no_deps() -> (v: Vec<SystemKind>)
    ensures
        v@ == Seq::<SystemKind>::empty(),
{
    Vec::new()
}

/// A single dependency.
fn dep(a: SystemKind) -> (v: Vec<SystemKind>)
    ensures
        v@ == seq![a],
{
    let mut v: Vec<SystemKind> = Vec::new();
    v.push(a);
    assert(v@ =~= seq![a]);
    v
}

/// Three dependencies, in order.
fn deps3(a: SystemKind, b: SystemKind, c: SystemKind) -> (v: Vec<SystemKind>)
    ensures
        v@ == seq![a, b, c],
{
    let mut v: Vec<SystemKind> = Vec::new();
    v.push(a);
    v.push(b);
    v.push(c);
    assert(v@ =~= seq![a, b, c]);
    v
}

/// The stages registered before the user's dispatcher modifier.
pub fn core_stages() -> (v: Vec<Stage>)
    ensures
        stages_view(v@) == core_schedule(),
{
    let mut v: Vec<Stage> = Vec::new();
    v.push(Stage { system: SystemKind::UpdateStats, deps: no_deps() });
    v.push(Stage { system: SystemKind::EntityMeta, deps: no_deps() });
    v.push(Stage { system: SystemKind::Search, deps: dep(SystemKind::EntityMeta) });
    v.push(Stage { system: SystemKind::CurrentChunk, deps: no_deps() });
    v.push(Stage { system: SystemKind::ChunkUpdating, deps: dep(SystemKind::CurrentChunk) });
    v.push(Stage { system: SystemKind::ChunkRequests, deps: dep(SystemKind::CurrentChunk) });
    v.push(Stage { system: SystemKind::ChunkPipelining, deps: dep(SystemKind::ChunkRequests) });
    v.push(Stage { system: SystemKind::ChunkMeshing, deps: dep(SystemKind::ChunkPipelining) });
    v.push(Stage { system: SystemKind::ChunkSending, deps: dep(SystemKind::ChunkMeshing) });
    v.push(Stage { system: SystemKind::ChunkSaving, deps: dep(SystemKind::ChunkPipelining) });
    v.push(Stage { system: SystemKind::Physics, deps: dep(SystemKind::UpdateStats) });
    assert(stages_view(v@) =~= core_schedule());
    v
}

/// The stages registered after the user's dispatcher modifier.
pub fn tail_stages() -> (v: Vec<Stage>)
    ensures
        stages_view(v@) == tail_schedule(),
{
    let mut v: Vec<Stage> = Vec::new();
    v.push(Stage { system: SystemKind::EntitiesSaving, deps: dep(SystemKind::EntityMeta) });
    v.push(Stage { system: SystemKind::EntitiesSending, deps: dep(SystemKind::EntitiesSaving) });
    v.push(Stage { system: SystemKind::PeersSending, deps: no_deps() });
    v.push(
        Stage {
            system: SystemKind::Broadcast,
            deps: deps3(
                SystemKind::EntitiesSending,
                SystemKind::PeersSending,
                SystemKind::ChunkSending,
            ),
        },
    );
    v.push(Stage { system: SystemKind::ClearCollisions, deps: dep(SystemKind::EntitiesSending) });
    assert(stages_view(v@) =~= tail_schedule());
    v
}

/// Distinct systems are registered under distinct names.
pub proof fn lemma_system_names_distinct(a: SystemKind, b: SystemKind)
    ensures
        system_name(a) == system_name(b) ==> a == b,
{
    reveal_strlit("update-stats");
    reveal_strlit("entity-meta");
    reveal_strlit("search");
    reveal_strlit("current-chunking");
    reveal_strlit("chunk-updating");
    reveal_strlit("chunk-requests");
    reveal_strlit("chunk-pipelining");
    reveal_strlit("chunk-meshing");
    reveal_strlit("chunk-sending");
    reveal_strlit("chunk-saving");
    reveal_strlit("physics");
    reveal_strlit("entities-saving");
    reveal_strlit("entities-sending");
    reveal_strlit("peers-sending");
    reveal_strlit("broadcast");
    reveal_strlit("clear-collisions");
    assert(system_name(SystemKind::UpdateStats).len() == 12);
    assert(system_name(SystemKind::EntityMeta).len() == 11);
    assert(system_name(SystemKind::Search).len() == 6);
    assert(system_name(SystemKind::CurrentChunk).len() == 16);
    assert(system_name(SystemKind::ChunkUpdating).len() == 14);
    assert(system_name(SystemKind::ChunkRequests).len() == 14);
    assert(system_name(SystemKind::ChunkPipelining).len() == 16);
    assert(system_name(SystemKind::ChunkMeshing).len() == 13);
    assert(system_name(SystemKind::ChunkSending).len() == 13);
    assert(system_name(SystemKind::ChunkSaving).len() == 12);
    assert(system_name(SystemKind::Physics).len() == 7);
    assert(system_name(SystemKind::EntitiesSaving).len() == 15);
    assert(system_name(SystemKind::EntitiesSending).len() == 16);
    assert(system_name(SystemKind::PeersSending).len() == 13);
    assert(system_name(SystemKind::Broadcast).len() == 9);
    assert(system_name(SystemKind::ClearCollisions).len() == 16);
    assert(system_name(SystemKind::UpdateStats)[0] != system_name(SystemKind::ChunkSaving)[0]);
    assert(system_name(SystemKind::CurrentChunk)[1] != system_name(SystemKind::ChunkPipelining)[1]);
    assert(system_name(SystemKind::CurrentChunk)[0] != system_name(SystemKind::EntitiesSending)[0]);
    assert(system_name(SystemKind::CurrentChunk)[1] != system_name(SystemKind::ClearCollisions)[1]);
    assert(system_name(SystemKind::ChunkUpdating)[6] != system_name(SystemKind::ChunkRequests)[6]);
    assert(system_name(SystemKind::ChunkPipelining)[0] != system_name(SystemKind::EntitiesSending)[0]);
    assert(system_name(SystemKind::ChunkPipelining)[1] != system_name(SystemKind::ClearCollisions)[1]);
    assert(system_name(SystemKind::ChunkMeshing)[6] != system_name(SystemKind::ChunkSending)[6]);
    assert(system_name(SystemKind::ChunkMeshing)[0] != system_name(SystemKind::PeersSending)[0]);
    assert(system_name(SystemKind::ChunkSending)[0] != system_name(SystemKind::PeersSending)[0]);
    assert(system_name(SystemKind::EntitiesSending)[0] != system_name(SystemKind::ClearCollisions)[0]);
    match a {
        SystemKind::UpdateStats => {},
        SystemKind::EntityMeta => {},
        SystemKind::Search => {},
        SystemKind::CurrentChunk => {},
        SystemKind::ChunkUpdating => {},
        SystemKind::ChunkRequests => {},
        SystemKind::ChunkPipelining => {},
        SystemKind::ChunkMeshing => {},
        SystemKind::ChunkSending => {},
        SystemKind::ChunkSaving => {},
        SystemKind::Physics => {},
        SystemKind::EntitiesSaving => {},
        SystemKind::EntitiesSending => {},
        SystemKind::PeersSending => {},
        SystemKind::Broadcast => {},
        SystemKind::ClearCollisions => {},
    }
}

/// The names of the systems registered after the user's dispatcher modifier.
pub open spec fn tail_names() -> Set<Seq<char>> {
    Set::new(|n: Seq<char>| exists|i: int| 0 <= i < tail_schedule().len() && n == system_name(#[trigger] tail_schedule()[i].0))
}

/// The whole registration sequence of one tick: the built-in systems, then
/// those the user's dispatcher modifier adds, then the closing systems.
pub open spec fn full_schedule(custom: Seq<NamedStage>) -> Seq<NamedStage> {
    named(core_schedule()) + custom + named(tail_schedule())
}

/// The built-in systems alone are accepted by the dispatcher builder.
pub proof fn law_core_schedule_accepted()
    ensures
        accepted(named(core_schedule())),
{
    let c = named(core_schedule());
    assert(c.len() == 11);
    assert forall|i: int, j: int| 0 <= i < j < c.len() implies #[trigger] c[i].0 != #[trigger] c[j].0 by {
        lemma_system_names_distinct(core_schedule()[i].0, core_schedule()[j].0);
    }
    assert forall|i: int, d: int| 0 <= i < c.len() && 0 <= d < c[i].1.len() implies registered_before(c, i, #[trigger] c[i].1[d]) by {
        if i == 2 {
            assert(c[2].1[d] == c[1].0);
        } else if i == 4 || i == 5 {
            assert(c[i].1[d] == c[3].0);
        } else if i == 6 {
            assert(c[6].1[d] == c[5].0);
        } else if i == 7 || i == 9 {
            assert(c[i].1[d] == c[6].0);
        } else if i == 8 {
            assert(c[8].1[d] == c[7].0);
        } else {
            assert(i == 10);
            assert(c[10].1[d] == c[0].0);
        }
    }
}

/// Whatever systems the user's dispatcher modifier registers, as long as the
/// builder accepted them after the built-in ones and none of them takes the
/// name of a closing system, the closing systems are accepted too: every
/// closing system depends only on built-in systems and on closing systems
/// registered before it, and all names stay distinct.
pub proof fn law_schedule_accepted(custom: Seq<NamedStage>)
    requires
        accepted(named(core_schedule()) + custom),
        forall|i: int| 0 <= i < custom.len() ==> !tail_names().contains(#[trigger] custom[i].0),
    ensures
        accepted(full_schedule(custom)),
{
    let c = named(core_schedule());
    let t = named(tail_schedule());
    let cu = c + custom;
    let s = full_schedule(custom);
    let n: int = cu.len() as int;
    assert(c.len() == 11);
    assert(t.len() == 5);
    assert(s == cu + t);
    assert(s.len() == n + 5);
    assert forall|k: int| 0 <= k < n implies #[trigger] s[k] == cu[k] by {}
    assert forall|k: int| n <= k < n + 5 implies #[trigger] s[k] == t[k - n] by {}
    assert forall|i: int, j: int| 0 <= i < j < s.len() implies #[trigger] s[i].0 != #[trigger] s[j].0 by {
        if j < n {
            assert(s[i] == cu[i] && s[j] == cu[j]);
        } else {
            let tk = tail_schedule()[j - n].0;
            assert(s[j].0 == system_name(tk));
            if i < 11 {
                assert(s[i] == c[i]);
                lemma_system_names_distinct(core_schedule()[i].0, tk);
            } else if i < n {
                assert(s[i] == cu[i]);
                assert(cu[i] == custom[i - 11]);
                assert(tail_names().contains(system_name(tk)));
            } else {
                lemma_system_names_distinct(tail_schedule()[i - n].0, tk);
            }
        }
    }
    assert forall|i: int, d: int| 0 <= i < s.len() && 0 <= d < s[i].1.len() implies registered_before(s, i, #[trigger] s[i].1[d]) by {
        if i < n {
            assert(s[i] == cu[i]);
            assert(registered_before(cu, i, cu[i].1[d]));
            let j = choose|j: int| 0 <= j < i && #[trigger] cu[j].0 == cu[i].1[d];
            assert(s[j] == cu[j]);
        } else if i == n {
            assert(s[i].1[d] == s[1].0);
        } else if i == n + 1 {
            assert(s[i].1[d] == s[n].0);
        } else if i == n + 2 {
            assert(false);
        } else if i == n + 3 {
            if d == 0 {
                assert(s[i].1[d] == s[n + 1].0);
            } else if d == 1 {
                assert(s[i].1[d] == s[n + 2].0);
            } else {
                assert(s[i].1[d] == s[8].0);
            }
        } else {
            assert(s[i].1[d] == s[n + 1].0);
        }
    }
}

/// What the user's dispatcher modifier hands back, `mid` (the built-in
/// systems it was given, plus or minus whatever it changed), registered
/// before the closing systems: if the builder accepted `mid`, it accepts the
/// closing systems after it exactly when `mid` still holds the systems named
/// `entity-meta` and `chunk-sending` and takes none of the closing systems'
/// names. Otherwise the builder panics on a missing dependency or a
/// duplicate name.
pub proof fn law_closing_systems_accepted_iff(mid: Seq<NamedStage>)
    requires
        accepted(mid),
    ensures
        accepted(mid + named(tail_schedule())) <==> {
            &&& registered_before(mid, mid.len() as int, system_name(SystemKind::EntityMeta))
            &&& registered_before(mid, mid.len() as int, system_name(SystemKind::ChunkSending))
            &&& forall|i: int| 0 <= i < mid.len() ==> !tail_names().contains(#[trigger] mid[i].0)
        },
{
    let t = named(tail_schedule());
    let s = mid + t;
    let n: int = mid.len() as int;
    assert(t.len() == 5);
    assert forall|k: int| 0 <= k < n implies #[trigger] s[k] == mid[k] by {}
    assert forall|k: int| n <= k < n + 5 implies #[trigger] s[k] == t[k - n] by {}
    let has_meta = registered_before(mid, n, system_name(SystemKind::EntityMeta));
    let has_sending = registered_before(mid, n, system_name(SystemKind::ChunkSending));
    let fresh = forall|i: int| 0 <= i < mid.len() ==> !tail_names().contains(#[trigger] mid[i].0);
    if accepted(s) {
        // the dependency of `entities-saving` on `entity-meta`
        assert(s[n].1[0] == system_name(SystemKind::EntityMeta));
        assert(registered_before(s, n, s[n].1[0]));
        let j = choose|j: int| 0 <= j < n && #[trigger] s[j].0 == s[n].1[0];
        assert(mid[j].0 == system_name(SystemKind::EntityMeta));
        // the dependency of `broadcast` on `chunk-sending`
        assert(s[n + 3].1[2] == system_name(SystemKind::ChunkSending));
        assert(registered_before(s, n + 3, s[n + 3].1[2]));
        let j2 = choose|j: int| 0 <= j < n + 3 && #[trigger] s[j].0 == s[n + 3].1[2];
        if j2 >= n {
            lemma_system_names_distinct(tail_schedule()[j2 - n].0, SystemKind::ChunkSending);
        }
        assert(mid[j2].0 == system_name(SystemKind::ChunkSending));
        assert forall|i: int| 0 <= i < mid.len() implies !tail_names().contains(#[trigger] mid[i].0) by {
            if tail_names().contains(mid[i].0) {
                let k = choose|k: int| 0 <= k < tail_schedule().len() && mid[i].0 == system_name(#[trigger] tail_schedule()[k].0);
                assert(s[i].0 == s[n + k].0);
            }
        }
    }
    if has_meta && has_sending && fresh {
        assert forall|i: int, j: int| 0 <= i < j < s.len() implies #[trigger] s[i].0 != #[trigger] s[j].0 by {
            if j < n {
                assert(s[i] == mid[i] && s[j] == mid[j]);
            } else {
                let tk = tail_schedule()[j - n].0;
                assert(s[j].0 == system_name(tk));
                if i < n {
                    assert(s[i] == mid[i]);
                    assert(tail_names().contains(system_name(tk)));
                } else {
                    lemma_system_names_distinct(tail_schedule()[i - n].0, tk);
                }
            }
        }
        assert forall|i: int, d: int| 0 <= i < s.len() && 0 <= d < s[i].1.len() implies registered_before(s, i, #[trigger] s[i].1[d]) by {
            if i < n {
                assert(s[i] == mid[i]);
                assert(registered_before(mid, i, mid[i].1[d]));
                let j = choose|j: int| 0 <= j < i && #[trigger] mid[j].0 == mid[i].1[d];
                assert(s[j] == mid[j]);
            } else if i == n {
                let j = choose|j: int| 0 <= j < n && #[trigger] mid[j].0 == system_name(SystemKind::EntityMeta);
                assert(s[j] == mid[j]);
            } else if i == n + 1 {
                assert(s[i].1[d] == s[n].0);
            } else if i == n + 2 {
                assert(false);
            } else if i == n + 3 {
                if d == 0 {
                    assert(s[i].1[d] == s[n + 1].0);
                } else if d == 1 {
                    assert(s[i].1[d] == s[n + 2].0);
                } else {
                    let j = choose|j: int| 0 <= j < n && #[trigger] mid[j].0 == system_name(SystemKind::ChunkSending);
                    assert(s[j] == mid[j]);
                }
            } else {
                assert(s[i].1[d] == s[n + 1].0);
            }
        }
    }
}

} // verus!
