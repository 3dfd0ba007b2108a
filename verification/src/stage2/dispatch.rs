//! Per-row adapters for seed-rooted Stage-2 sugars.
//!
//! Seed-rooted chains run over `SeedNode<UN>` rows, while user
//! closures are written over `&UN`. The `SeedWrap` builders hand hylic
//! a lifted closure that peels `Node(n)` and forwards `n` to the user's
//! closure, and treats the synthetic `EntryRoot` row on its own terms.
//! Each lifted closure is one call of a function below.

use vstd::prelude::*;
use hylic::ops::SeedNode;
use hylic::ops::seed_node_internal::SeedNodeInner;

verus! {

/// Whether a row is kept as a child by the seed-rooted edge filter:
/// the `EntryRoot` row always is (the entry-seed fan-out is
/// structural), a `Node(n)` row is kept when the user's predicate
/// holds of `n`.
pub open spec fn row_admitted<UN, P: Fn(&UN) -> bool + ?Sized>(pred: &P, row: SeedNode<UN>, b: bool) -> bool {
    match row.inner {
        SeedNodeInner::EntryRoot => b,
        SeedNodeInner::Node(n) => pred.ensures((&n,), b),
    }
}

/// Edge filter for seed-rooted chains (`filter_edges` on `SeedWrap`).
pub fn seed_edge_admitted<UN, P: Fn(&UN) -> bool + ?Sized>(pred: &P, row: &SeedNode<UN>) -> (b: bool)
    requires
        forall|n: UN| row.inner == SeedNodeInner::Node(n) ==> pred.requires((&n,)),
    ensures
        row_admitted(pred, *row, b),
{
    match hylic::ops::seed_node_internal::inner(row) {
        SeedNodeInner::Node(n) => pred(n),
        SeedNodeInner::EntryRoot => true,
    }
}

/// The cache key of a row under seed-rooted memoisation: `None` for the
/// `EntryRoot` row (it is never cached), `Some(k)` for `Node(n)` where
/// `k` is what the user's key function gives for `n`.
pub open spec fn row_keyed<UN, K, KF: Fn(&UN) -> K + ?Sized>(key_fn: &KF, row: SeedNode<UN>, k: Option<K>) -> bool {
    match row.inner {
        SeedNodeInner::EntryRoot => k is None,
        SeedNodeInner::Node(n) => match k {
            Some(kk) => key_fn.ensures((&n,), kk),
            None => false,
        },
    }
}

/// Cache key for seed-rooted chains (`memoize_by` on `SeedWrap`).
pub fn seed_cache_key<UN, K, KF: Fn(&UN) -> K + ?Sized>(key_fn: &KF, row: &SeedNode<UN>) -> (k: Option<K>)
    requires
        forall|n: UN| row.inner == SeedNodeInner::Node(n) ==> key_fn.requires((&n,)),
    ensures
        row_keyed(key_fn, *row, k),
{
    match hylic::ops::seed_node_internal::inner(row) {
        SeedNodeInner::Node(n) => Some(key_fn(n)),
        SeedNodeInner::EntryRoot => None,
    }
}

/// How a row is carried across a node-type change: `EntryRoot` stays
/// `EntryRoot`, `Node(n)` becomes `Node(m)` where `m` is what the
/// user's map gives for `n`.
pub open spec fn row_mapped<UN, UN2, C: Fn(&UN) -> UN2 + ?Sized>(
    c: &C,
    row: SeedNode<UN>,
    out: SeedNode<UN2>,
) -> bool {
    match row.inner {
        SeedNodeInner::EntryRoot => out.inner is EntryRoot,
        SeedNodeInner::Node(n) => match out.inner {
            SeedNodeInner::Node(m) => c.ensures((&n,), m),
            SeedNodeInner::EntryRoot => false,
        },
    }
}

/// Row map for seed-rooted node-type changes (`map_n_bi` on
/// `SeedWrap`, both the forward and the backward direction).
pub fn seed_map_row<UN, UN2, C: Fn(&UN) -> UN2 + ?Sized>(c: &C, row: &SeedNode<UN>) -> (r: SeedNode<UN2>)
    requires
        forall|n: UN| row.inner == SeedNodeInner::Node(n) ==> c.requires((&n,)),
    ensures
        row_mapped(c, *row, r),
{
    match hylic::ops::seed_node_internal::inner(row) {
        SeedNodeInner::Node(n) => hylic::ops::seed_node_internal::node(c(n)),
        SeedNodeInner::EntryRoot => hylic::ops::seed_node_internal::entry_root(),
    }
}

/// How a row's initial heap is chosen under a seed-rooted `wrap_init`:
/// the `EntryRoot` row keeps the chain's own init (the entry heap), a
/// `Node(n)` row gets what the user's wrapper gives for `n`.
pub open spec fn row_init<UN, H, U: Fn(&UN) -> H + ?Sized, O: Fn(&SeedNode<UN>) -> H + ?Sized>(
    at_node: &U,
    orig: &O,
    row: SeedNode<UN>,
    h: H,
) -> bool {
    match row.inner {
        SeedNodeInner::EntryRoot => orig.ensures((&row,), h),
        SeedNodeInner::Node(n) => at_node.ensures((&n,), h),
    }
}

/// Init dispatch for seed-rooted chains (`wrap_init` on `SeedWrap`):
/// `at_node` is the user's wrapper already given its continuation,
/// `orig` the chain's own init over rows.
pub fn seed_init_dispatch<UN, H, U: Fn(&UN) -> H + ?Sized, O: Fn(&SeedNode<UN>) -> H + ?Sized>(
    at_node: &U,
    orig: &O,
    row: &SeedNode<UN>,
) -> (h: H)
    requires
        row.inner is EntryRoot ==> orig.requires((row,)),
        forall|n: UN| row.inner == SeedNodeInner::Node(n) ==> at_node.requires((&n,)),
    ensures
        row_init(at_node, orig, *row, h),
{
    match hylic::ops::seed_node_internal::inner(row) {
        SeedNodeInner::Node(n) => at_node(n),
        SeedNodeInner::EntryRoot => orig(row),
    }
}

// ── Laws ───────────────────────────────────────────────────────

/// The seed-rooted edge filter never drops the `EntryRoot` row.
pub proof fn law_entry_root_always_admitted<UN, P: Fn(&UN) -> bool + ?Sized>(pred: &P, row: SeedNode<UN>, b: bool)
    requires
        row.inner is EntryRoot,
        row_admitted(pred, row, b),
    ensures
        b,
{
}

/// A seed-rooted `wrap_init` leaves the `EntryRoot` row's heap to the
/// chain's own init: the user's wrapper is never what decides it.
pub proof fn law_entry_root_init_untouched<UN, H, U: Fn(&UN) -> H + ?Sized, O: Fn(&SeedNode<UN>) -> H + ?Sized>(
    at_node: &U,
    orig: &O,
    row: SeedNode<UN>,
    h: H,
)
    requires
        row.inner is EntryRoot,
        row_init(at_node, orig, row, h),
    ensures
        orig.ensures((&row,), h),
{
}

/// The `EntryRoot` row never shares a cache slot with a resolved node,
/// and two resolved nodes share a slot exactly when the user's key
/// function gave them the same key.
pub proof fn law_cache_keys_separate<UN, K, KF: Fn(&UN) -> K + ?Sized>(
    key_fn: &KF,
    a: SeedNode<UN>,
    ka: Option<K>,
    b: SeedNode<UN>,
    kb: Option<K>,
)
    requires
        row_keyed(key_fn, a, ka),
        row_keyed(key_fn, b, kb),
    ensures
        (a.inner is EntryRoot) != (b.inner is EntryRoot) ==> ka != kb,
        (a.inner is EntryRoot) && (b.inner is EntryRoot) ==> ka == kb,
        forall|na: UN, nb: UN, ua: K, ub: K|
            a.inner == SeedNodeInner::Node(na) && b.inner == SeedNodeInner::Node(nb)
                && key_fn.ensures((&na,), ua) && key_fn.ensures((&nb,), ub)
                && ka == Some(ua) && kb == Some(ub)
                ==> (ka == kb <==> ua == ub),
{
}

/// A node-type change is undone row by row: if `contra` undoes `co` on
/// every user node, then mapping a row forward with `co` and back with
/// `contra` returns the same row, `EntryRoot` included.
pub proof fn law_row_map_round_trip<UN, UN2, Co: Fn(&UN) -> UN2 + ?Sized, Contra: Fn(&UN2) -> UN + ?Sized>(
    co: &Co,
    contra: &Contra,
    row: SeedNode<UN>,
    mid: SeedNode<UN2>,
    back: SeedNode<UN>,
)
    requires
        row_mapped(co, row, mid),
        row_mapped(contra, mid, back),
        forall|n: UN, m: UN2, n2: UN| co.ensures((&n,), m) && contra.ensures((&m,), n2) ==> n2 == n,
    ensures
        back == row,
{
    match row.inner {
        SeedNodeInner::EntryRoot => {
            assert(back.inner == row.inner);
        },
        SeedNodeInner::Node(n) => {
            if let SeedNodeInner::Node(m) = mid.inner {
                if let SeedNodeInner::Node(n2) = back.inner {
                    assert(co.ensures((&n,), m));
                    assert(contra.ensures((&m,), n2));
                }
            }
            assert(back.inner == row.inner);
        },
    }
}

} // verus!
