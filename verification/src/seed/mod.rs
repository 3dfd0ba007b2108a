//! Stage-1 seed pipelines: the grow-slot rewrites behind the
//! `SeedPipeline` sugars.
//!
//! A seed pipeline grows nodes from seeds (`grow: &Seed -> N`). The
//! bijective sugars rewrite that slot: `map_node_bi` post-composes the
//! forward node map (`co ∘ grow`), `map_seed_bi` pre-composes the
//! backward seed map (`grow ∘ from_new`). Each rewritten grow closure
//! is one call of a function below.
//!
//! `reshape_slots` is the rewrite step of `SeedPipeline::reshape`, the
//! sole Stage-1 primitive: each of the three slots goes through its own
//! rewriter, exactly once.

use vstd::prelude::*;

verus! {

/// Rewrite the three base slots `(grow, seeds_from_node, fold)`, each
/// by its own rewriter (the body of `SeedPipeline::reshape`).
pub fn reshape_slots<G, S, F, G2, S2, F2, FG, FS, FF>(
    grow: G,
    seeds_from_node: S,
    fold: F,
    reshape_grow: FG,
    reshape_seeds: FS,
    reshape_fold: FF,
) -> (r: (G2, S2, F2))
where
    FG: FnOnce(G) -> G2,
    FS: FnOnce(S) -> S2,
    FF: FnOnce(F) -> F2,
    requires
        reshape_grow.requires((grow,)),
        reshape_seeds.requires((seeds_from_node,)),
        reshape_fold.requires((fold,)),
    ensures
        reshape_grow.ensures((grow,), r.0),
        reshape_seeds.ensures((seeds_from_node,), r.1),
        reshape_fold.ensures((fold,), r.2),
{
    let g2 = reshape_grow(grow);
    let s2 = reshape_seeds(seeds_from_node);
    let f2 = reshape_fold(fold);
    (g2, s2, f2)
}

/// Reshaping with rewriters that return their argument gives back the
/// same three slots.
pub proof fn law_reshape_identity<G, S, F, FG: FnOnce(G) -> G, FS: FnOnce(S) -> S, FF: FnOnce(F) -> F>(
    grow: G,
    seeds_from_node: S,
    fold: F,
    reshape_grow: FG,
    reshape_seeds: FS,
    reshape_fold: FF,
    r: (G, S, F),
)
    requires
        reshape_grow.ensures((grow,), r.0),
        reshape_seeds.ensures((seeds_from_node,), r.1),
        reshape_fold.ensures((fold,), r.2),
        forall|a: G, b: G| reshape_grow.ensures((a,), b) ==> b == a,
        forall|a: S, b: S| reshape_seeds.ensures((a,), b) ==> b == a,
        forall|a: F, b: F| reshape_fold.ensures((a,), b) ==> b == a,
    ensures
        r == (grow, seeds_from_node, fold),
{
}

/// Grow a node from a seed, then map it to the new node type
/// (the grow slot of `map_node_bi`).
pub fn grow_then_map<Seed, N, N2, G: Fn(&Seed) -> N + ?Sized, C: Fn(&N) -> N2 + ?Sized>(
    grow: &G,
    co: &C,
    s: &Seed,
) -> (r: N2)
    requires
        grow.requires((s,)),
        forall|n: N| grow.ensures((s,), n) ==> co.requires((&n,)),
    ensures
        exists|n: N| grow.ensures((s,), n) && co.ensures((&n,), r),
{
    let n = grow(s);
    co(&n)
}

/// Map a new-type seed back to the original seed type, then grow it
/// (the grow slot of `map_seed_bi`).
pub fn seed_back_then_grow<Seed, Seed2, N, B: Fn(&Seed2) -> Seed + ?Sized, G: Fn(&Seed) -> N + ?Sized>(
    from_new: &B,
    grow: &G,
    s2: &Seed2,
) -> (r: N)
    requires
        from_new.requires((s2,)),
        forall|s: Seed| from_new.ensures((s2,), s) ==> grow.requires((&s,)),
    ensures
        exists|s: Seed| from_new.ensures((s2,), s) && grow.ensures((&s,), r),
{
    let s = from_new(s2);
    grow(&s)
}

/// Re-seeding round trip: when `from_new` undoes `to_new`, a seed
/// carried into the new seed type and grown through the rewritten
/// grow slot may give any node the original grow may give for it.
pub proof fn law_map_seed_grows_same<Seed, Seed2, N, T: Fn(&Seed) -> Seed2 + ?Sized, B: Fn(&Seed2) -> Seed + ?Sized, G: Fn(&Seed) -> N + ?Sized>(
    to_new: &T,
    from_new: &B,
    grow: &G,
    s: Seed,
    s2: Seed2,
    r: N,
)
    requires
        to_new.ensures((&s,), s2),
        forall|x: Seed, y: Seed2, z: Seed| to_new.ensures((&x,), y) && from_new.ensures((&y,), z) ==> z == x,
        exists|s1: Seed| from_new.ensures((&s2,), s1) && grow.ensures((&s1,), r),
    ensures
        grow.ensures((&s,), r),
{
    let s1 = choose|s1: Seed| from_new.ensures((&s2,), s1) && grow.ensures((&s1,), r);
    assert(s1 == s);
}

} // verus!
