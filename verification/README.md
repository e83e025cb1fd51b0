# meisei_pipeline

The maturity pipeline (intake → sensemaking → decisions → planning → actions
→ execution) as a verified library. Each layer's artifact is held as plain
values; every hop between layers, the content the pipeline fills in itself,
and the decisions of a run are proved against their contracts. Each hop made
here keeps the id of its source, as laws in `src/lineage.rs` and in the
contract of `advance_run` state. The links the layers themselves carry from
the decision to the packet and from the project to the lowered plan are
their own work: the end-to-end walk from the plan back to the decision
(`law_plan_walks_back_to_decision`) is proved for runs in which the layers
keep those links.

The layers' own work — minting a sensing item, promoting a decision,
planning an action packet, the maturity check, lowering a plan — belongs to
the layers' crates. `app/` drives a run over them: it performs the work each
step asks for and hands the outcome back to `advance_run`.

Layout: `src/` the library, `tests/` its tests, `app/` the command-line
program and the driver over the layer crates.
