use voxelize_world::schedule::{core_stages, tail_stages, SystemKind};

fn names(stages: &[voxelize_world::schedule::Stage]) -> Vec<(String, Vec<String>)> {
    stages
        .iter()
        .map(|s| (s.system.name().to_string(), s.deps.iter().map(|d| d.name().to_string()).collect()))
        .collect()
}

fn pair(n: &str, deps: &[&str]) -> (String, Vec<String>) {
    (n.to_string(), deps.iter().map(|d| d.to_string()).collect())
}

#[test]
fn core_systems_in_registration_order() {
    assert_eq!(
        names(&core_stages()),
        vec![
            pair("update-stats", &[]),
            pair("entity-meta", &[]),
            pair("search", &["entity-meta"]),
            pair("current-chunking", &[]),
            pair("chunk-updating", &["current-chunking"]),
            pair("chunk-requests", &["current-chunking"]),
            pair("chunk-pipelining", &["chunk-requests"]),
            pair("chunk-meshing", &["chunk-pipelining"]),
            pair("chunk-sending", &["chunk-meshing"]),
            pair("chunk-saving", &["chunk-pipelining"]),
            pair("physics", &["update-stats"]),
        ]
    );
}

#[test]
fn closing_systems_in_registration_order() {
    assert_eq!(
        names(&tail_stages()),
        vec![
            pair("entities-saving", &["entity-meta"]),
            pair("entities-sending", &["entities-saving"]),
            pair("peers-sending", &[]),
            pair("broadcast", &["entities-sending", "peers-sending", "chunk-sending"]),
            pair("clear-collisions", &["entities-sending"]),
        ]
    );
}

#[test]
fn every_dependency_is_registered_before_use() {
    let mut all = core_stages();
    all.extend(tail_stages());
    let mut seen: Vec<SystemKind> = Vec::new();
    for s in &all {
        for d in &s.deps {
            assert!(seen.contains(d), "{:?} depends on unregistered {:?}", s.system, d);
        }
        assert!(!seen.contains(&s.system));
        seen.push(s.system);
    }
    let mut ns: Vec<&str> = seen.iter().map(|k| k.name()).collect();
    ns.sort();
    ns.dedup();
    assert_eq!(ns.len(), 16);
}
