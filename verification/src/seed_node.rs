//! hylic's `SeedNode<N>` as the verified code sees it.
//!
//! A seed-rooted chain runs over rows of type `SeedNode<N>`: either the
//! synthetic `EntryRoot` row (whose children are the grown entry
//! seeds) or a resolved `Node(n)`. hylic declares
//!
//! ```text
//! pub struct SeedNode<N> { pub inner: SeedNodeInner<N> }
//! pub enum SeedNodeInner<N> { EntryRoot, Node(N) }
//! ```
//!
//! Both declarations below let Verus read exactly those public
//! definitions (the single public field and the two variants); the
//! specifications that follow state what hylic's small accessor
//! functions return, as their source shows.

use vstd::prelude::*;
use hylic::ops::SeedNode;
use hylic::ops::seed_node_internal::SeedNodeInner;

verus! {

/// hylic's `SeedNode<N>`: one public field `inner: SeedNodeInner<N>`.
/// Verus reads that field as hylic declares it.
#[verifier::external_type_specification]
#[verifier::reject_recursive_types(N)]
pub struct ExSeedNode<N>(SeedNode<N>);

/// hylic's `SeedNodeInner<N>`: the variants `EntryRoot` and `Node(N)`.
/// Verus reads the variants as hylic declares them.
#[verifier::external_type_specification]
#[verifier::reject_recursive_types(N)]
pub struct ExSeedNodeInner<N>(SeedNodeInner<N>);

/// `hylic::ops::seed_node_internal::node`: builds `SeedNode { inner: Node(n) }`.
pub assume_specification<N>[hylic::ops::seed_node_internal::node::<N>](n: N) -> (r: SeedNode<N>)
    ensures
        r.inner == SeedNodeInner::Node(n),
;

/// `hylic::ops::seed_node_internal::entry_root`: builds `SeedNode { inner: EntryRoot }`.
pub assume_specification<N>[hylic::ops::seed_node_internal::entry_root::<N>]() -> (r: SeedNode<N>)
    ensures
        r.inner == SeedNodeInner::<N>::EntryRoot,
;

/// `hylic::ops::seed_node_internal::inner`: borrows the `inner` field.
pub assume_specification<N>[hylic::ops::seed_node_internal::inner::<N>](sn: &SeedNode<N>) -> (r: &SeedNodeInner<N>)
    ensures
        *r == sn.inner,
;

/// `SeedNode::as_node`: `Some(&n)` on `Node(n)`, `None` on `EntryRoot`.
pub assume_specification<N>[SeedNode::<N>::as_node](sn: &SeedNode<N>) -> (r: Option<&N>)
    ensures
        match sn.inner {
            SeedNodeInner::Node(n) => r == Some(&n),
            SeedNodeInner::EntryRoot => r is None,
        },
;

/// `SeedNode::into_inner`: moves the `inner` field out.
pub assume_specification<N>[SeedNode::<N>::into_inner](sn: SeedNode<N>) -> (r: SeedNodeInner<N>)
    ensures
        r == sn.inner,
;

/// The user-facing node carried by a row, if the row is a resolved node.
pub open spec fn row_node<N>(sn: SeedNode<N>) -> Option<N> {
    match sn.inner {
        SeedNodeInner::Node(n) => Some(n),
        SeedNodeInner::EntryRoot => None,
    }
}

/// A row is fixed by what it carries: two rows with the same
/// `row_node` are the same row.
pub proof fn lemma_row_node_injective<N>(a: SeedNode<N>, b: SeedNode<N>)
    requires
        row_node(a) == row_node(b),
    ensures
        a == b,
{
    assert(a.inner == b.inner);
}

} // verus!
