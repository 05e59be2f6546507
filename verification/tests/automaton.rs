use sphere_automata::engine::{Neighbor, five_closest, insert_closest, reset, step, tally_materials};
use sphere_automata::generate::generate;
use sphere_automata::geometry::Pos3;
use sphere_automata::material::{Material, NeighborTally, next_material, transition};
use sphere_automata::playback::AutomataState;
use sphere_automata::point::{Point, PointState};

/// Lays the given materials out on a line, one point per thousand fixed-point
/// units, so that with six points every point's five nearest are all the
/// others and the tallies are fully controlled.
fn line_state(materials: &[Material]) -> Vec<PointState> {
    materials
        .iter()
        .enumerate()
        .map(|(i, m)| PointState {
            point: Point {
                position: Pos3 { x: (i as i64) * 1_000, y: 0, z: 0 },
                id: i,
            },
            material: *m,
        })
        .collect()
}

const D: Material = Material::Dirt;
const G: Material = Material::Grass;
const W: Material = Material::Water;

#[test]
fn transition_table_dirt_rows() {
    // Dirt: one grass neighbour wins over everything else
    assert_eq!(transition(D, &NeighborTally { dirt: 0, grass: 1, water: 4 }), G);
    // Dirt: no grass, two water
    assert_eq!(transition(D, &NeighborTally { dirt: 3, grass: 0, water: 2 }), W);
    // Dirt: no grass, under two water
    assert_eq!(transition(D, &NeighborTally { dirt: 4, grass: 0, water: 1 }), D);
}

#[test]
fn transition_table_grass_rows() {
    // Grass: the water check has priority even when the dirt check also holds
    assert_eq!(transition(G, &NeighborTally { dirt: 4, grass: 0, water: 2 }), W);
    // Grass: under two water, four dirt
    assert_eq!(transition(G, &NeighborTally { dirt: 4, grass: 0, water: 1 }), D);
    // Grass: neither condition
    assert_eq!(transition(G, &NeighborTally { dirt: 3, grass: 1, water: 1 }), G);
}

#[test]
fn transition_table_water_rows() {
    assert_eq!(transition(W, &NeighborTally { dirt: 3, grass: 0, water: 2 }), D);
    assert_eq!(transition(W, &NeighborTally { dirt: 2, grass: 0, water: 3 }), W);
}

#[test]
fn step_dirt_with_grass_becomes_grass() {
    let s = line_state(&[D, G, W, W, D, D]);
    let next = step(&s);
    assert_eq!(next[0].material, G);
}

#[test]
fn step_dirt_with_two_water_becomes_water() {
    let s = line_state(&[D, D, W, W, D, D]);
    let next = step(&s);
    assert_eq!(next[0].material, W);
}

#[test]
fn step_dirt_with_one_water_stays_dirt() {
    let s = line_state(&[D, D, W, D, D, D]);
    let next = step(&s);
    assert_eq!(next[0].material, D);
}

#[test]
fn step_grass_with_two_water_becomes_water() {
    let s = line_state(&[G, D, W, W, D, D]);
    let next = step(&s);
    assert_eq!(next[0].material, W);
}

#[test]
fn step_grass_with_four_dirt_becomes_dirt() {
    let s = line_state(&[G, D, D, D, D, W]);
    let next = step(&s);
    assert_eq!(next[0].material, D);
}

#[test]
fn step_water_with_three_dirt_becomes_dirt() {
    let s = line_state(&[W, D, D, D, W, W]);
    let next = step(&s);
    assert_eq!(next[0].material, D);
}

#[test]
fn step_water_with_two_dirt_stays_water() {
    let s = line_state(&[W, D, D, W, W, W]);
    let next = step(&s);
    assert_eq!(next[0].material, W);
}

#[test]
fn step_reads_only_the_pre_step_snapshot() {
    // A (index 0, Dirt) turns Grass only because B (index 1) is Grass in the
    // snapshot; B itself turns Water in the same step. A sequential update
    // that wrote B first would leave A seeing three waters and no grass.
    let s = line_state(&[D, G, W, W, D, D]);
    let next = step(&s);
    assert_eq!(next[1].material, W);
    assert_eq!(next[0].material, G);
}

#[test]
fn step_preserves_count_and_points() {
    let s = generate(30);
    let next = step(&s);
    assert_eq!(next.len(), s.len());
    for (a, b) in s.iter().zip(next.iter()) {
        assert_eq!(a.point, b.point);
    }
}

#[test]
fn reset_preserves_count_and_points() {
    let mut s = generate(25);
    s = step(&s);
    let r = reset(&s);
    assert_eq!(r.len(), s.len());
    for (a, b) in s.iter().zip(r.iter()) {
        assert_eq!(a.point, b.point);
        assert_eq!(b.material, D);
    }
}

#[test]
fn reset_is_idempotent() {
    let mut s = line_state(&[G, W, D, G, W, D]);
    s = step(&s);
    let once = reset(&s);
    let twice = reset(&once);
    assert_eq!(once, twice);
}

#[test]
fn tallies_sum_to_five_with_six_or_more_points() {
    for n in [6usize, 7, 10, 20] {
        let s = generate(n);
        for k in 0..n {
            let t = tally_materials(&five_closest(&s, k));
            assert_eq!(t.dirt + t.grass + t.water, 5);
        }
    }
}

#[test]
fn tallies_sum_to_n_minus_one_below_six_points() {
    for n in [1usize, 2, 3, 4, 5] {
        let s = generate(n);
        for k in 0..n {
            let t = tally_materials(&five_closest(&s, k));
            assert_eq!(t.dirt + t.grass + t.water, n - 1);
        }
    }
}

#[test]
fn five_closest_keeps_the_nearest() {
    // seven points on a line; the farthest carries the only Water, and must
    // be evicted from point 0's list
    let s = line_state(&[D, G, G, G, G, G, W]);
    let ns = five_closest(&s, 0);
    assert_eq!(ns.len(), 5);
    let mut dists: Vec<i64> = ns.iter().map(|e| e.dist2).collect();
    dists.sort();
    assert_eq!(dists, vec![1_000_000, 4_000_000, 9_000_000, 16_000_000, 25_000_000]);
    let t = tally_materials(&ns);
    assert_eq!(t.grass, 5);
    assert_eq!(t.water, 0);
}

#[test]
fn recorded_distances_are_mutual() {
    // with six points every pair is recorded on both sides; the squared
    // distance must read the same from either one
    let s = line_state(&[D, G, W, D, G, W]);
    for a in 0..6 {
        let na = five_closest(&s, a);
        for b in 0..6 {
            if a == b {
                continue;
            }
            let d = (s[a].point.position.x - s[b].point.position.x).pow(2);
            assert!(na.iter().any(|e| e.dist2 == d));
            let nb = five_closest(&s, b);
            assert!(nb.iter().any(|e| e.dist2 == d));
        }
    }
}

#[test]
fn insert_closest_replaces_first_of_equal_maxima() {
    let mut list = vec![
        Neighbor { material: D, dist2: 10 },
        Neighbor { material: G, dist2: 30 },
        Neighbor { material: D, dist2: 30 },
        Neighbor { material: W, dist2: 20 },
        Neighbor { material: D, dist2: 5 },
    ];
    insert_closest(&mut list, Neighbor { material: W, dist2: 7 });
    let dists: Vec<i64> = list.iter().map(|e| e.dist2).collect();
    assert_eq!(dists, vec![10, 7, 30, 20, 5]);
    assert_eq!(list[1].material, W);
}

#[test]
fn insert_closest_appends_below_the_limit() {
    let mut list = vec![Neighbor { material: D, dist2: 10 }];
    insert_closest(&mut list, Neighbor { material: G, dist2: 50 });
    assert_eq!(list.len(), 2);
    assert_eq!(list[1].dist2, 50);
}

#[test]
fn insert_closest_ignores_a_farther_candidate() {
    let mut list = vec![
        Neighbor { material: D, dist2: 10 },
        Neighbor { material: G, dist2: 30 },
        Neighbor { material: D, dist2: 30 },
        Neighbor { material: W, dist2: 20 },
        Neighbor { material: D, dist2: 5 },
    ];
    let before = list.clone();
    insert_closest(&mut list, Neighbor { material: W, dist2: 30 });
    assert_eq!(list, before);
}

#[test]
fn material_cycle() {
    assert_eq!(next_material(D), G);
    assert_eq!(next_material(G), W);
    assert_eq!(next_material(W), D);
}

#[test]
fn play_pause_switch() {
    let mut a = AutomataState::new();
    assert!(a.is_playing());
    a.toggle();
    assert!(!a.is_playing());
    a.toggle();
    assert!(a.is_playing());
    assert_eq!(AutomataState::default(), AutomataState::new());
}
