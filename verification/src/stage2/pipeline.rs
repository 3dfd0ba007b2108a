//! `Stage2Pipeline<Base, L>` — the unified Stage-2 typestate.
//!
//! Wraps a Stage-1 `Base` with a single lift `L` (usually a
//! `ComposedLift` tree built by chaining sugars). Treeish-rooted and
//! seed-rooted chains share this struct; they differ only in which
//! `Base` is wrapped and which `.run` is callable.

use vstd::prelude::*;
use hylic::ops::{ComposedLift, IdentityLift};

verus! {

/// hylic's `IdentityLift`, the unit of lift composition; carried as
/// an opaque value.
#[verifier::external_type_specification]
#[verifier::external_body]
pub struct ExIdentityLift(IdentityLift);

/// hylic's `ComposedLift<L1, L2>` (`L1` runs first, then `L2`);
/// carried as an opaque value.
#[verifier::external_type_specification]
#[verifier::external_body]
#[verifier::reject_recursive_types(L1)]
#[verifier::reject_recursive_types(L2)]
pub struct ExComposedLift<L1, L2>(ComposedLift<L1, L2>);

/// `ComposedLift::compose(inner, outer)`: builds the composed lift from
/// its two parts. Its fields are private to hylic, so nothing is
/// stated of the result.
pub assume_specification<L1, L2>[ComposedLift::<L1, L2>::compose](inner: L1, outer: L2) -> ComposedLift<L1, L2>;

/// Stage-2 typestate pipeline. Wraps a Stage-1 base with a lift chain.
#[must_use]
#[derive(Clone)]
pub struct Stage2Pipeline<Base, L = IdentityLift> {
    /// The Stage-1 base the chain runs over.
    pub base: Base,
    /// The lift chain applied to the base's `(treeish, fold)` pair.
    pub pre_lift: L,
}

impl<Base, L> Stage2Pipeline<Base, L> {
    /// Assemble a Stage-2 pipeline from its base and its lift chain.
    pub fn new(base: Base, pre_lift: L) -> (r: Self)
        ensures
            r.base == base,
            r.pre_lift == pre_lift,
    {
        Stage2Pipeline { base, pre_lift }
    }

    /// Post-compose `outer` onto the chain. Pure struct construction,
    /// no bounds: whether the composition means anything is enforced
    /// where the chain is consumed (`.run_*`, `TreeishSource`). The base
    /// is carried over unchanged.
    pub fn then_lift<L2>(self, outer: L2) -> (r: Stage2Pipeline<Base, ComposedLift<L, L2>>)
        ensures
            r.base == self.base,
    {
        Stage2Pipeline { base: self.base, pre_lift: ComposedLift::compose(self.pre_lift, outer) }
    }
}

/// Chaining never touches the base: after any two `then_lift` steps
/// the base is still the one the pipeline was built with.
pub proof fn law_then_lift_keeps_base<Base, L, L2, L3>(
    p0: Stage2Pipeline<Base, L>,
    p1: Stage2Pipeline<Base, ComposedLift<L, L2>>,
    p2: Stage2Pipeline<Base, ComposedLift<ComposedLift<L, L2>, L3>>,
)
    requires
        p1.base == p0.base,
        p2.base == p1.base,
    ensures
        p2.base == p0.base,
{
}

} // verus!
