# clomonitor_core

The checks CLOMonitor runs on open source project repositories, with their
contracts proved by Verus.

- `src/` is the verified library: the check registry and which datasources a
  run needs, each check's decision, the readers of the documents the checks
  use (AFDocs reports, OpenSSF Scorecard results, Security Insights manifests,
  foundation landscapes), the GitHub metadata helpers, the markdown text
  helpers, the snapshots retention policy and the project views batch.
- `tests/` runs the library on concrete inputs.
- `app/` is the input and output around it: reading repository files,
  fetching remote content, parsing JSON and YAML documents into the library's
  types, license detection, floating point scores and the views worker.
