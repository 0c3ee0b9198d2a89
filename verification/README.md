# orbis

The decision logic of Orbis, a hub for PC games of several publishers,
written in Verus with its contracts proved.

- `src/` — the verified library: version normalization, the compatibility
  engine, attention reasons, the loaders of the built-in data (compatibility
  table, tool manifests, asset index) and their cross-checks, the tool and
  catalog projections, settings and their bounds, stored rows read strictly,
  process matching, runtime changes, play-time sessions and totals, log file
  names, log lines and retention, the error model, and the decisions of each
  command.  JSON text is read by `serde_json` behind a trusted wrapper and
  decoded by verified code.
- `tests/` — tests of the library on concrete values.
- `app/` — the program around it: the SQLite store (`rusqlite`), the
  process table and disks (`sysinfo`), local time (`chrono`), the JSONL log
  layer (`tracing`), paths and files, and the serialized forms (`serde`).
