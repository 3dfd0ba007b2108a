//! hylic-pipeline — typestate pipelines and sugars over hylic lifts.
//!
//! This crate holds the verified core of the pipeline library:
//!
//!   - [`seed_node`]: how the library reads hylic's `SeedNode<N>` rows
//!     (the `EntryRoot | Node(N)` rows of a seed-rooted chain).
//!   - [`stage2::wrap`]: the `Wrap` dispatch family (`Identity`,
//!     `SeedWrap`) that decides how user closures over `&UN` meet the
//!     chain's wrapped node type, with its laws.
//!   - [`stage2::dispatch`]: the per-row adapters that seed-rooted
//!     Stage-2 sugars hand to hylic (edge filtering, memo keys,
//!     node-type change, init).
//!   - [`stage2::pipeline`]: the `Stage2Pipeline<Base, L>` typestate
//!     and its composition primitive `then_lift`.
//!   - [`seed`]: the slot rewrites behind the Stage-1 seed sugars.
//!   - [`owned`]: the one-shot `OwnedPipeline`.

use vstd::prelude::*;

pub mod owned;
pub mod seed;
pub mod seed_node;
pub mod stage2;

pub use owned::OwnedPipeline;
pub use stage2::pipeline::Stage2Pipeline;
pub use stage2::wrap::{Identity, SeedWrap, Wrap, WrapMap};

verus! {
}
