# receive_diagnostics

Session-local diagnostics for BGP announcements that are lost before they reach
the routing table: announcements converted to withdrawals by validation, and
those rejected by the AS path, originator and cluster loop checks.

- `src/` holds the counters and the decisions when to report them, verified with
  Verus. Contracts are stated over `Tally` and `Totals`, the views of
  `RejectionCount` and `ReceiveDiagnostics`; `session.rs` states what holds over
  a whole session.
- `app/` writes the log lines that the reports ask for.
- `tests/` runs the library on concrete sessions.
