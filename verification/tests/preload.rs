use voxelize_world::preload::{preload_coords, preload_plan, ChunkParams};
use voxelize_world::vec::Vec2;

fn params() -> ChunkParams {
    ChunkParams { max_height: 128, sub_chunks: 2, size: 8 }
}

#[test]
fn radius_zero_is_the_origin() {
    assert_eq!(preload_coords(0), vec![Vec2(0, 0)]);
}

#[test]
fn negative_radius_preloads_nothing() {
    assert!(preload_coords(-1).is_empty());
}

#[test]
fn radius_one_walks_cz_fastest() {
    assert_eq!(
        preload_coords(1),
        vec![
            Vec2(-1, -1), Vec2(-1, 0), Vec2(-1, 1),
            Vec2(0, -1), Vec2(0, 0), Vec2(0, 1),
            Vec2(1, -1), Vec2(1, 0), Vec2(1, 1),
        ]
    );
}

#[test]
fn radius_two_covers_the_square_once() {
    let c = preload_coords(2);
    assert_eq!(c.len(), 25);
    for cx in -2..=2 {
        for cz in -2..=2 {
            assert_eq!(c.iter().filter(|v| **v == Vec2(cx, cz)).count(), 1);
        }
    }
}

#[test]
fn plan_keeps_chunks_inside_the_world_with_fresh_ids() {
    let coords = preload_coords(1);
    let within: Vec<bool> = coords.iter().map(|c| c.0 >= 0 && c.1 >= 0).collect();
    let seeds = preload_plan(&coords, &within, params());
    let got: Vec<Vec2<i32>> = seeds.iter().map(|s| s.coords).collect();
    assert_eq!(got, vec![Vec2(0, 0), Vec2(0, 1), Vec2(1, 0), Vec2(1, 1)]);
    for s in &seeds {
        assert_eq!(s.id.chars().count(), 21);
        assert_eq!(s.params, params());
        assert!(s.id.chars().all(|c| c.is_ascii_alphanumeric() || c == '_' || c == '-'));
    }
    assert_ne!(seeds[0].id, seeds[1].id);
}

#[test]
fn plan_of_nothing_inside_is_empty() {
    let coords = preload_coords(1);
    assert!(preload_plan(&coords, &vec![false; 9], params()).is_empty());
}

