//! Stage-2 pipeline machinery: the `Wrap` dispatch family, the
//! per-row adapters used by seed-rooted sugars, and the
//! `Stage2Pipeline` typestate.

pub mod dispatch;
pub mod pipeline;
pub mod wrap;
