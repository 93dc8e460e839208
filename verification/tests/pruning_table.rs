use kociemba::{
    get_co_prune_table, get_co_transition_table, get_eo_prune_table, get_eo_transition_table,
    init_prune_table,
};
use std::collections::VecDeque;

/// An independent breadth-first search over the transition graph, where
/// one move turns a face once, twice or three times.
fn reference_bfs(table: &[[usize; 6]], start: usize) -> Vec<u8> {
    let mut dist = vec![255u8; table.len()];
    dist[start] = 0;
    let mut queue = VecDeque::new();
    queue.push_back(start);
    while let Some(v) = queue.pop_front() {
        for f in 0..6 {
            let mut w = v;
            for _ in 0..3 {
                w = table[w][f];
                if dist[w] == 255 {
                    dist[w] = dist[v] + 1;
                    queue.push_back(w);
                }
            }
        }
    }
    dist
}

#[test]
fn eo_prune_identity() {
    let table = get_eo_transition_table();
    let dist = get_eo_prune_table(&table);
    assert_eq!(2048, dist.len());
    assert_eq!(0, dist[0]);
}

#[test]
fn eo_prune_matches_reference_bfs() {
    let table = get_eo_transition_table();
    let dist = get_eo_prune_table(&table);
    let reference = reference_bfs(&table, 0);
    assert_eq!(reference, dist);
    assert!(dist.iter().all(|&d| d < 255));
}

#[test]
fn co_prune_identity() {
    let table = get_co_transition_table();
    let dist = get_co_prune_table(&table);
    assert_eq!(2187, dist.len());
    assert_eq!(0, dist[0]);
}

#[test]
fn co_prune_matches_reference_bfs() {
    let table = get_co_transition_table();
    let dist = get_co_prune_table(&table);
    let reference = reference_bfs(&table, 0);
    assert_eq!(reference, dist);
    assert!(dist.iter().all(|&d| d < 255));
}

#[test]
fn prune_tables_admissible_by_step() {
    // No single move may improve a recorded distance by more than one.
    for (table, dist) in [
        {
            let t = get_eo_transition_table();
            let d = init_prune_table(&t, 0);
            (t, d)
        },
        {
            let t = get_co_transition_table();
            let d = init_prune_table(&t, 0);
            (t, d)
        },
    ] {
        for v in 0..table.len() {
            for f in 0..6 {
                let mut w = v;
                for _ in 0..3 {
                    w = table[w][f];
                    assert!((dist[w] as u16) <= dist[v] as u16 + 1);
                }
            }
        }
    }
}
