# graphql_orm_ai

Verified decision logic for GraphQL-backed AI agents: how a provider's tool
surface is chosen and frozen, how one-shot approvals bind to an exact action,
how the capability broker loads and executes generated reads, how budgets
and retained provider sessions are fenced, and how a run coordinator decides
what to do after every provider turn, tool call, heartbeat and checkpoint.

The public functions in `src/` carry Verus contracts over spec functions
and views; laws that relate several functions are stated and proved as
public proof functions beside them. Calls into `sha2`, `hex`, `serde_json`,
`uuid`, `time` and `url` go through a few trusted wrappers in `digest`,
`budget` and `configuration`, whose contracts say what those crates
document and are believed, not proved.

## Layout

- `src/` — the verified library (Verus).
  - `capability_delivery`, `capability_description`, `delivery_turn` —
    delivery-mode selection, exact initial surfaces, the frozen broker
    definitions, provider aliases, retained session bindings, planning
    contracts.
  - `broker`, `broker_arguments`, `broker_execution` — discovery, loaded
    bindings and their fences, the flattened argument tree, the closed
    execution plan.
  - `approvals`, `native` — approval envelopes and grants, and the checks
    that resume a native turn paused for approval.
  - `budget`, `configuration`, `egress`, `message_preview` — policy
    writes, capacity views, reclamation, data policies, endpoints, egress
    audit, stored message previews.
  - `coordinator` — the agent loop's decisions as functions from what was
    observed to the next step.
  - `digest`, `tools`, `scope`, `execution`, `error` — fingerprints, tool
    definitions, scopes, execution targets, errors.
- `tests/` — executable tests of the library.
- `app/` — host plumbing that Verus does not see: JSON decoding, serialized
  copies of library types, clocks and identifiers, and the async seams
  around library decisions.
