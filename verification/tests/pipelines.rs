use hylic::domain::owned;
use hylic::domain::owned::edgy::treeish;
use hylic::ops::{ComposedLift, IdentityLift};
use hylic_pipeline::seed::{grow_then_map, reshape_slots, seed_back_then_grow};
use hylic_pipeline::{OwnedPipeline, Stage2Pipeline};

#[test]
fn then_lift_keeps_base() {
    let p: Stage2Pipeline<&str> = Stage2Pipeline::new("base", IdentityLift);
    let q: Stage2Pipeline<&str, ComposedLift<IdentityLift, IdentityLift>> = p.then_lift(IdentityLift);
    assert_eq!(q.base, "base");
    let r = q.then_lift(IdentityLift);
    assert_eq!(r.base, "base");
}

#[test]
fn stage2_new_holds_parts() {
    let p: Stage2Pipeline<u32, u8> = Stage2Pipeline::new(3, 9);
    assert_eq!(p.base, 3);
    assert_eq!(p.pre_lift, 9);
}

#[test]
fn grow_then_map_composes() {
    let grow = |s: &String| s.len() as u64;
    let co = |n: &u64| n * 10;
    assert_eq!(grow_then_map(&grow, &co, &"abcd".to_string()), 40);
}

#[test]
fn seed_back_then_grow_composes() {
    let from_new = |s2: &u64| "x".repeat(*s2 as usize);
    let grow = |s: &String| s.len() as u64 + 1;
    assert_eq!(seed_back_then_grow(&from_new, &grow, &3), 4);
}

#[test]
fn map_seed_round_trip_grows_same_node() {
    let to_new = |s: &String| s.len() as u64;
    let from_new = |n: &u64| "a".repeat(*n as usize);
    let grow = |s: &String| s.len() as u64 * 2;
    let s = "aaa".to_string();
    assert_eq!(seed_back_then_grow(&from_new, &grow, &to_new(&s)), grow(&s));
}

#[test]
fn owned_pipeline_hands_back_its_slots() {
    let t = treeish(|n: &u64| if *n > 0 { vec![n - 1] } else { vec![] });
    let f = owned::fold(|n: &u64| *n, |h: &mut u64, c: &u64| *h += c, |h: &u64| *h);
    let p = OwnedPipeline::new(t, f);
    let (t2, f2) = p.into_slots();
    assert_eq!(t2.apply(&3), vec![2]);
    assert_eq!(f2.init(&5), 5);
}

#[test]
fn reshape_slots_rewrites_each_slot_once() {
    let (g, s, f): (u64, String, Vec<u8>) = reshape_slots(
        2u32,
        "ab",
        vec![1u8],
        |g: u32| g as u64 * 10,
        |s: &str| s.to_uppercase(),
        |mut f: Vec<u8>| {
            f.push(2);
            f
        },
    );
    assert_eq!(g, 20);
    assert_eq!(s, "AB");
    assert_eq!(f, vec![1, 2]);
}

#[test]
fn reshape_slots_identity_rewriters_keep_slots() {
    let r = reshape_slots(1u8, 2u16, 3u32, |g| g, |s| s, |f| f);
    assert_eq!(r, (1, 2, 3));
}
