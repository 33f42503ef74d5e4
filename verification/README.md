# pincher-core

The decision logic of the pincher reflex engine, verified with Verus.

Pincher matches what an agent says against learned reflexes and runs the
matching action without asking an LLM; agents carry their reflexes between
machines in `.nail` bundles. This crate holds the parts of that system that
decide things, each with a contract that Verus proves:

| module | what it decides |
|---|---|
| `capability` | glob matching of paths and what a capability manifest grants |
| `guard` | the migration state machine (PREPARE, CROSSFADE, FINALIZE) and its constraints |
| `workspace` | admission to the global workspace, priority scheduling of waiters |
| `crdt` | CRDT cell merges, hot/cold routing, repartitioning |
| `gastrolith` | building the migration checkpoint, reflexes ordered by priority |
| `governance` | consent, court verdicts, appeals, erasure, jurisdiction, accountability |
| `phantom` | phantom-capability events after a migration, adaptation curve |
| `route` | the ternary-weighted room graph and its community queries |
| `migration` | checksums, decompression and schema checks of `.nail` archives |
| `engine`, `embedder` | which reflex an intent matches; trigrams and their digests |
| `schema` | the generalised trigger of a group of reflexes |
| `rpc` | reading, routing and error answers of the JSON-RPC interface |
| `resource`, `energy` | runtime modes, PID actions and energy policies |

Doubles are never computed with inside the library: where a rule compares
them (confidences, ratios, similarities) it receives their IEEE-754 bit
patterns and compares those (`ieee`). Times are milliseconds or seconds as
integers.

`app/` holds the command-line program and everything that is input/output,
threads or floating-point arithmetic: the SQLite reflex store, the vector
embedding, the PID arithmetic, path lengths on the room graph, and the
thermodynamic and cognitive models. It calls the library for every rule.
