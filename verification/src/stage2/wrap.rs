//! `Wrap` — dispatch for the chain's input node type.
//!
//! A Stage-2 chain's input node is `Of` for the user-facing node `UN`
//! (the type user closures are written at):
//!
//! - [`Identity`]: `Of = UN`. Treeish-rooted chains. `project` is
//!   total, `wrap` is the identity, `map` is plain application.
//! - [`SeedWrap`]: `Of = SeedNode<UN>`. Seed-rooted chains. `project`
//!   is `None` exactly on the synthetic `EntryRoot` row, `wrap` builds
//!   `Node(_)`, `map` keeps `EntryRoot` and applies `f` inside `Node(_)`.
//!
//! The family is parameterised by `UN` (and `map` lives on
//! [`WrapMap`], over the two node types it relates), so that each
//! implementation names its node type directly.
//!
//! Every wrapped value has a view: the user-facing node it carries,
//! or `None` for a synthetic row. The contracts speak of that view.

use vstd::prelude::*;
use hylic::ops::SeedNode;
use hylic::ops::seed_node_internal::SeedNodeInner;
use crate::seed_node::{lemma_row_node_injective, row_node};

verus! {

/// How `map` relates the view before, the closure, and the view after:
/// a synthetic row stays synthetic, and a resolved node `x` becomes a
/// resolved node `y` that the closure may return for `x`.
pub open spec fn map_relates<UN1, UN2, F: FnOnce(UN1) -> UN2>(
    before: Option<UN1>,
    f: F,
    after: Option<UN2>,
) -> bool {
    match before {
        None => after is None,
        Some(x) => match after {
            Some(y) => f.ensures((x,), y),
            None => false,
        },
    }
}

/// Dispatch for a chain whose input node wraps the user-facing node `UN`.
pub trait Wrap<UN> {
    /// The wrapped node type for the user-facing node `UN`.
    type Of;

    /// The user-facing node a wrapped value carries; `None` for a
    /// synthetic position (the `EntryRoot` row under `SeedWrap`).
    spec fn view_of(w: <Self as Wrap<UN>>::Of) -> Option<UN>;

    /// A wrapped value is determined by its view.
    proof fn lemma_view_determines(a: <Self as Wrap<UN>>::Of, b: <Self as Wrap<UN>>::Of)
        requires
            Self::view_of(a) == Self::view_of(b),
        ensures
            a == b,
    ;

    /// Project a wrapped node back to its user-facing form; `None` on
    /// synthetic positions.
    fn project(w: &<Self as Wrap<UN>>::Of) -> (r: Option<&UN>)
        ensures
            match r {
                Some(x) => Self::view_of(*w) == Some(*x),
                None => Self::view_of(*w) is None,
            },
    ;

    /// Wrap a user-facing node as the chain's input node. Inverse of
    /// `project` on resolved nodes.
    fn wrap(un: UN) -> (r: <Self as Wrap<UN>>::Of)
        ensures
            Self::view_of(r) == Some(un),
    ;
}

/// Functorial map over a wrap, from user-facing `UN1` to `UN2`.
pub trait WrapMap<UN1, UN2>: Wrap<UN1> + Wrap<UN2> {
    /// Apply `f` inside the wrap; synthetic positions are kept.
    fn map<F: FnOnce(UN1) -> UN2>(w: <Self as Wrap<UN1>>::Of, f: F) -> (r: <Self as Wrap<UN2>>::Of)
        requires
            forall|x: UN1| <Self as Wrap<UN1>>::view_of(w) == Some(x) ==> f.requires((x,)),
        ensures
            map_relates(<Self as Wrap<UN1>>::view_of(w), f, <Self as Wrap<UN2>>::view_of(r)),
    ;
}

/// Identity wrap: `Of = UN`. Used by treeish-rooted Stage-2 chains.
/// All projections are total.
#[derive(Clone, Copy, Debug, Default)]
pub struct Identity;

impl<UN> Wrap<UN> for Identity {
    type Of = UN;

    open spec fn view_of(w: UN) -> Option<UN> {
        Some(w)
    }

    proof fn lemma_view_determines(a: UN, b: UN) {
    }

    fn project(w: &UN) -> (r: Option<&UN>)
        ensures
            r == Some(w),
    {
        Some(w)
    }

    fn wrap(un: UN) -> (r: UN)
        ensures
            r == un,
    {
        un
    }
}

impl<UN1, UN2> WrapMap<UN1, UN2> for Identity {
    fn map<F: FnOnce(UN1) -> UN2>(w: UN1, f: F) -> (r: UN2)
        ensures
            f.ensures((w,), r),
    {
        f(w)
    }
}

/// Seed wrap: `Of = SeedNode<UN>`. Used by seed-rooted Stage-2 chains.
/// `project` is partial: `None` on `EntryRoot`, `Some(&n)` on `Node(n)`.
#[derive(Clone, Copy, Debug, Default)]
pub struct SeedWrap;

impl<UN> Wrap<UN> for SeedWrap {
    type Of = SeedNode<UN>;

    open spec fn view_of(w: SeedNode<UN>) -> Option<UN> {
        row_node(w)
    }

    proof fn lemma_view_determines(a: SeedNode<UN>, b: SeedNode<UN>) {
        lemma_row_node_injective(a, b);
    }

    fn project(w: &SeedNode<UN>) -> (r: Option<&UN>)
        ensures
            r is None <==> w.inner is EntryRoot,
    {
        w.as_node()
    }

    fn wrap(un: UN) -> (r: SeedNode<UN>)
        ensures
            r.inner == SeedNodeInner::Node(un),
    {
        hylic::ops::seed_node_internal::node(un)
    }
}

impl<UN1, UN2> WrapMap<UN1, UN2> for SeedWrap {
    fn map<F: FnOnce(UN1) -> UN2>(w: SeedNode<UN1>, f: F) -> (r: SeedNode<UN2>)
        ensures
            w.inner is EntryRoot <==> r.inner is EntryRoot,
    {
        match w.into_inner() {
            SeedNodeInner::Node(n) => hylic::ops::seed_node_internal::node(f(n)),
            SeedNodeInner::EntryRoot => hylic::ops::seed_node_internal::entry_root(),
        }
    }
}

// ── Laws of the wrap family ────────────────────────────────────

/// `wrap` and `project` are inverse on resolved nodes: `wrap(un)` has
/// view `Some(un)` (so `project` gives `un` back), and it is the only
/// wrapped value with that view, under every wrap.
pub proof fn law_wrap_project<W: Wrap<UN>, UN>(un: UN, w: <W as Wrap<UN>>::Of)
    requires
        W::view_of(w) == Some(un),
    ensures
        forall|w2: <W as Wrap<UN>>::Of| W::view_of(w2) == Some(un) ==> w2 == w,
{
    assert forall|w2: <W as Wrap<UN>>::Of| W::view_of(w2) == Some(un) implies w2 == w by {
        W::lemma_view_determines(w2, w);
    }
}

/// Mapping a closure that returns its argument leaves the wrapped
/// value unchanged (functor identity law).
pub proof fn law_map_identity<W: WrapMap<UN, UN>, UN, F: FnOnce(UN) -> UN>(
    w: <W as Wrap<UN>>::Of,
    f: F,
    r: <W as Wrap<UN>>::Of,
)
    requires
        map_relates(<W as Wrap<UN>>::view_of(w), f, <W as Wrap<UN>>::view_of(r)),
        forall|x: UN, y: UN| f.ensures((x,), y) ==> y == x,
    ensures
        r == w,
{
    <W as Wrap<UN>>::lemma_view_determines(r, w);
}

/// Mapping `f` and then `g` relates the same views as mapping any `h`
/// that may return `g(f(x))` for every `x` (functor composition law).
pub proof fn law_map_compose<UN1, UN2, UN3, F: FnOnce(UN1) -> UN2, G: FnOnce(UN2) -> UN3, H: FnOnce(UN1) -> UN3>(
    a: Option<UN1>,
    b: Option<UN2>,
    c: Option<UN3>,
    f: F,
    g: G,
    h: H,
)
    requires
        map_relates(a, f, b),
        map_relates(b, g, c),
        forall|x: UN1, y: UN2, z: UN3| f.ensures((x,), y) && g.ensures((y,), z) ==> h.ensures((x,), z),
    ensures
        map_relates(a, h, c),
{
}

/// A synthetic row stays synthetic under `map`, and a resolved node
/// stays resolved: `map` never creates or removes the `EntryRoot` row.
pub proof fn law_seed_map_keeps_entry_root<UN1, UN2, F: FnOnce(UN1) -> UN2>(
    w: SeedNode<UN1>,
    f: F,
    r: SeedNode<UN2>,
)
    requires
        map_relates(row_node(w), f, row_node(r)),
    ensures
        (w.inner is EntryRoot) <==> (r.inner is EntryRoot),
{
}

} // verus!
