use hylic::ops::SeedNode;
use hylic_pipeline::stage2::dispatch::{seed_cache_key, seed_edge_admitted, seed_init_dispatch, seed_map_row};

fn node(n: u64) -> SeedNode<u64> {
    hylic::ops::seed_node_internal::node(n)
}

fn entry() -> SeedNode<u64> {
    hylic::ops::seed_node_internal::entry_root()
}

#[test]
fn edge_filter_admits_entry_root_always() {
    let never = |_: &u64| false;
    assert!(seed_edge_admitted(&never, &entry()));
}

#[test]
fn edge_filter_applies_predicate_to_nodes() {
    let even = |n: &u64| n % 2 == 0;
    assert!(seed_edge_admitted(&even, &node(4)));
    assert!(!seed_edge_admitted(&even, &node(5)));
}

#[test]
fn cache_key_is_none_for_entry_root() {
    let key = |n: &u64| n / 10;
    assert_eq!(seed_cache_key(&key, &entry()), None);
}

#[test]
fn cache_key_wraps_user_key_for_nodes() {
    let key = |n: &u64| n / 10;
    assert_eq!(seed_cache_key(&key, &node(42)), Some(4));
    assert_eq!(seed_cache_key(&key, &node(47)), seed_cache_key(&key, &node(40)));
    assert_ne!(seed_cache_key(&key, &node(0)), seed_cache_key(&key, &entry()));
}

#[test]
fn row_map_forward_and_back() {
    let co = |n: &u64| format!("#{n}");
    let contra = |s: &String| s[1..].parse::<u64>().unwrap();
    let mid: SeedNode<String> = seed_map_row(&co, &node(17));
    assert_eq!(mid.as_node(), Some(&"#17".to_string()));
    let back: SeedNode<u64> = seed_map_row(&contra, &mid);
    assert_eq!(back, node(17));
}

#[test]
fn row_map_keeps_entry_root() {
    let co = |n: &u64| n + 1;
    let mid: SeedNode<u64> = seed_map_row(&co, &entry());
    assert!(mid.is_entry_root());
}

#[test]
fn init_dispatch_leaves_entry_root_to_chain_init() {
    let at_node = |n: &u64| n * 100;
    let orig = |row: &SeedNode<u64>| if row.is_entry_root() { 7 } else { 1 };
    assert_eq!(seed_init_dispatch(&at_node, &orig, &entry()), 7);
}

#[test]
fn init_dispatch_routes_nodes_through_wrapper() {
    let at_node = |n: &u64| n * 100;
    let orig = |_: &SeedNode<u64>| 1u64;
    assert_eq!(seed_init_dispatch(&at_node, &orig, &node(3)), 300);
}
