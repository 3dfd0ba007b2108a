use hylic::ops::SeedNode;
use hylic_pipeline::{Identity, SeedWrap, Wrap, WrapMap};

fn node(n: u64) -> SeedNode<u64> {
    hylic::ops::seed_node_internal::node(n)
}

fn entry() -> SeedNode<u64> {
    hylic::ops::seed_node_internal::entry_root()
}

#[test]
fn identity_project_is_total() {
    let w: u64 = <Identity as Wrap<u64>>::wrap(7);
    assert_eq!(w, 7);
    assert_eq!(<Identity as Wrap<u64>>::project(&w), Some(&7));
}

#[test]
fn identity_map_applies_closure() {
    let r: String = <Identity as WrapMap<u64, String>>::map(12, |x: u64| format!("n{x}"));
    assert_eq!(r, "n12");
}

#[test]
fn seed_wrap_builds_resolved_node() {
    let w = <SeedWrap as Wrap<u64>>::wrap(5);
    assert!(!w.is_entry_root());
    assert_eq!(w, node(5));
}

#[test]
fn seed_wrap_project_undoes_wrap() {
    let w = <SeedWrap as Wrap<u64>>::wrap(41);
    assert_eq!(<SeedWrap as Wrap<u64>>::project(&w), Some(&41));
}

#[test]
fn seed_wrap_project_is_none_on_entry_root() {
    let e = entry();
    assert_eq!(<SeedWrap as Wrap<u64>>::project(&e), None);
}

#[test]
fn seed_wrap_map_applies_inside_node() {
    let r: SeedNode<u64> = <SeedWrap as WrapMap<u64, u64>>::map(node(5), |x: u64| x + 1);
    assert_eq!(r, node(6));
}

#[test]
fn seed_wrap_map_changes_node_type() {
    let r: SeedNode<String> = <SeedWrap as WrapMap<u64, String>>::map(node(3), |x: u64| x.to_string());
    assert_eq!(r.as_node(), Some(&"3".to_string()));
}

#[test]
fn seed_wrap_map_keeps_entry_root() {
    let mut called = false;
    let r: SeedNode<u64> = <SeedWrap as WrapMap<u64, u64>>::map(entry(), |x: u64| {
        called = true;
        x * 100
    });
    assert!(r.is_entry_root());
    assert!(!called);
}

#[test]
fn seed_wrap_map_identity_law() {
    let w = node(9);
    let r = <SeedWrap as WrapMap<u64, u64>>::map(w.clone(), |x: u64| x);
    assert_eq!(r, w);
    let e = <SeedWrap as WrapMap<u64, u64>>::map(entry(), |x: u64| x);
    assert_eq!(e, entry());
}

#[test]
fn seed_wrap_map_composition_law() {
    let f = |x: u64| x + 2;
    let g = |x: u64| x * 3;
    let stepwise = <SeedWrap as WrapMap<u64, u64>>::map(<SeedWrap as WrapMap<u64, u64>>::map(node(4), f), g);
    let composed = <SeedWrap as WrapMap<u64, u64>>::map(node(4), |x: u64| g(f(x)));
    assert_eq!(stepwise, composed);
    assert_eq!(composed, node(18));
}
