//! `OwnedPipeline` — one-shot, seedless, by-value pipeline over hylic's
//! `Owned` domain. Not `Clone`; running it consumes it.

use vstd::prelude::*;
use hylic::domain::owned::Fold;
use hylic::domain::owned::edgy::Edgy;

verus! {

/// hylic's Owned-domain graph `Edgy<N, E>` (a boxed visit closure),
/// carried as an opaque value.
#[verifier::external_type_specification]
#[verifier::external_body]
#[verifier::reject_recursive_types(N)]
#[verifier::reject_recursive_types(E)]
pub struct ExOwnedEdgy<N, E>(Edgy<N, E>);

/// hylic's Owned-domain `Fold<N, H, R>` (boxed init / accumulate /
/// finalize closures), carried as an opaque value.
#[verifier::external_type_specification]
#[verifier::external_body]
#[verifier::reject_recursive_types(N)]
#[verifier::reject_recursive_types(H)]
#[verifier::reject_recursive_types(R)]
pub struct ExOwnedFold<N, H, R>(Fold<N, H, R>);

/// One-shot pipeline over the `Owned` domain: a treeish and a fold,
/// handed over by value when it runs.
#[must_use]
#[verifier::reject_recursive_types(N)]
#[verifier::reject_recursive_types(H)]
#[verifier::reject_recursive_types(R)]
pub struct OwnedPipeline<N, H, R> {
    /// The node-to-children graph.
    pub treeish: Edgy<N, N>,
    /// The fold run over that graph.
    pub fold: Fold<N, H, R>,
}

impl<N, H, R> OwnedPipeline<N, H, R> {
    /// Construct an owned pipeline from its two slots.
    pub fn new(treeish: Edgy<N, N>, fold: Fold<N, H, R>) -> (r: Self)
        ensures
            r.treeish == treeish,
            r.fold == fold,
    {
        OwnedPipeline { treeish, fold }
    }

    /// Hand both slots over, consuming the pipeline.
    pub fn into_slots(self) -> (r: (Edgy<N, N>, Fold<N, H, R>))
        ensures
            r.0 == self.treeish,
            r.1 == self.fold,
    {
        (self.treeish, self.fold)
    }
}

} // verus!
