# tikeo

The decision logic of the tikeo job scheduler as a library with proved
contracts, and a thin layer of HTTP, database and JSON code around it.

- `src/` — the library. `workflow/` validates workflow DAG definitions and
  answers graph queries (successors after a status, predecessor checks, start
  nodes, cycle detection); `scheduling` gives readiness advice for a job;
  `raft_bootstrap` derives raft node ids and voter sets and probes a raft-rs
  node; `dev_auth` checks bearer tokens and logins; `worker_tunnel` decides how
  worker messages are answered and how broadcast instances settle;
  `notification_templates`, `raft_store`, `notification_schema` and
  `storage_compat` describe what the storage layer writes; `management_api` and
  `scheduler_api` hold the request and response models; `text` holds the string
  helpers the rest relies on.
- `tests/` — scenario tests of the library.
- `app/` — axum handlers, serde shapes, sea-orm schema upkeep and webhook log
  messages, calling into the library.
