# hylic-pipeline

Typestate pipelines and sugars over the `hylic` tree-fold primitives.

- `src/` is the verified library (Verus): the `Wrap` dispatch
  (`Identity`, `SeedWrap`) between user closures over `&UN` and the
  chain's node type, the per-row adapters used by seed-rooted Stage-2
  sugars (edge filter, memo key, node-type change, init), the slot
  rewrites behind the Stage-1 seed sugars, and the `Stage2Pipeline` /
  `OwnedPipeline` types. Each comes with its contract and laws.
- `app/` is the rest of the pipeline surface, in plain Rust: the
  domain-generic `SeedPipeline` / `TreeishPipeline` typestates, the
  source and execution traits, the `Stage2Base` bridge, `.run`, and the
  sugar traits that build hylic `ShapeLift`s. These are written over
  hylic's `Domain`, `Lift` and `Executor` traits, whose associated types
  carry generic parameters and whose closures are stored as `dyn Fn`;
  their row and slot logic calls into `src/`.
- `tests/` runs the library on concrete values.
