# neat_ai_discovery

The decision logic of NEAT-AI structural discovery, verified with Verus:
which squash a name denotes, which activation families a scan proposes,
which focus neurons and upstream sources an analysis pass looks at, when a
pass stops taking on targets, why a target produced no candidate, and how a
pass is classified for drought accounting.

Layout:

- `src/` — the verified library.
  - `text.rs` — string helpers stated over `Seq<char>` (trimming, ASCII case,
    code-point order, decimal rendering).
  - `positions.rs` — selecting positions of a sequence by a predicate.
  - `activations.rs` — squash-name normalisation and recognition.
  - `analysis/activation/` — shader ids, scan sets, simulation modes and
    compatibility classes of activation families.
  - `analysis/targets.rs`, `focus.rs`, `phases.rs`, `deadline.rs` — focus
    lists, evaluation order, eligible sources, phase order and timeouts.
  - `analysis/diagnostics.rs` — per-target counters and no-candidate reasons.
  - `analysis/samples.rs`, `batch.rs` — pairing records by observation index
    and restoring batch order.
  - `analysis/threshold.rs`, `candidates.rs` — threshold squashes and the GPU
    candidate table.
  - `analysis/analysis_outcome.rs` — pass outcomes and their tally.
- `app/` — floating-point activation arithmetic, bias grids, scan
  configurations, wall-clock deadlines, diagnostics ranking and logging, and
  the serialised outcome types, built on the library.
- `tests/` — tests of the library.
