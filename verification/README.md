# aframp_metrics

Prometheus metrics for the Aframp backend, written in Verus.

- `src/` is the verified library: the definition of every metric (name, help,
  labels, kind, histogram buckets as exact decimals in ten-thousandths), the
  registration of all of them in one registry, the text exposition of a
  registry, the Redis key-prefix helper, and the analytics helpers with the
  series (vector and label values) that each of them updates.
- A `MetricsRegistry` wraps a `prometheus::Registry` that is never handed out,
  so vectors enter it only through this library. Its model maps each
  registered name to the vector registered under it. Registering the catalog
  in a new registry is proved to succeed (the descriptor ids, FNV-1a hashes of
  the names, are computed and found distinct), and the vectors handed back are
  proved to be the ones recorded under their names. The exposition is proved
  to be valid UTF-8 text made of `# HELP`, `# TYPE` and sample lines of
  registered metrics, in the order of their names.
- The laws the catalog keeps (namespace prefix, snake_case, `_total` on
  counters, units on histograms, increasing buckets, unique names and ids) are
  proof functions in `src/catalog.rs`; those of registration in
  `src/registry.rs`, of the exposition in `src/exposition.rs`, and of the key
  prefix in `src/keys.rs`.
- `src/prom.rs` is the boundary with the `prometheus` crate and `std`: every
  item there is trusted and says in its doc comment what it claims.
- `app/` keeps the process-wide state (one registry created on first use) and
  the functions that the rest of the backend calls. It sets gauges, whose
  values are floats, on the series that the library selects.
- `tests/` runs the library against the real `prometheus` crate.
