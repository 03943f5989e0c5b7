# oz_policy_builder

Policy synthesis and enforcement for OpenZeppelin smart accounts on Stellar,
verified with Verus.

The library has two halves.

* **Policy contracts** (`spending_limit`, `time_window`, `frequency_limit`,
  `allowlist`, `composite`, `subscription`, `yield_claim`, `bounded_swap`):
  each policy's install / enforce / uninstall rules, over a model of the
  ledger (`storage::Env`: the current ledger sequence and a persistent
  key/value store scoped by `(smart_account, context_rule_id)`). Their
  contracts say exactly what each call stores, returns or refuses (where a
  call is refused outright, its `requires` excludes it and a checker such as
  `check_spend`, `check_payment` or `evaluate_claim` decides it); laws such
  as "one execution per window", "one payment per period" and "the count
  never passes the limit" are proof functions next to them.
* **The pipeline** (`xdr`, `asset_extractor`, `invocation_tree` →
  `decision_tree` → `permit`, `mutations`, `deny`, `harness` → `emitter`,
  `templates`): a recorded transaction becomes a `CallManifest`, the decision
  tree turns it into a `PolicySpec`, the harness runs the permit case and the
  five deny mutations against it, and the emitter produces the files of a
  reviewable policy crate. Each step's result is given exactly by a spec
  function.

`app/` is the JSON boundary: serde forms of the library's data, conversion
between `serde_json` values and the library's `JsonValue`, and entry points
that take and give JSON text.
