# santi-core

The decision kernel of the santi runtime store, verified with Verus.

`src/` holds the rules of the store that can be stated over plain values,
each with a contract proved by Verus:

- `codec`, `receipt`: the stored texts of the store's enumerations and the
  receipt lifecycle of accepted inbox entries;
- `effect`, `thinking`: the lifecycles of external effects and thinking spans;
- `intake`, `notice`: inbox admission (replay keys, holds, budgets, the queue limit)
  and the coalescing of notices;
- `compact`, `assembly`: planning compacts over a strand's spine, querying
  what they cover, and merging them into the provider's view;
- `fork`, `downstream`, `jobs`, `bucket`: forks, downstream registrations,
  job capabilities and object buckets;
- `migration`: which schema migrations run, and the rebuilding of older rows;
- `window`: the checks and answers of window speech;
- `turns`, `budget`, `clip`, `paths`: turn endings, tool budgets, clipped
  failure details and the memory file of a soul;
- `text`, `order`, `num`, `digest`, `json`: verified string, ordering and
  number helpers, and the calls into `sha2` and `serde_json`.

`app/` is a small SQLite store built on part of the kernel, not the whole
runtime store. It keeps a subset of the tables and covers strand creation,
messages, compacts (plan, preview, query), provider-input assembly, forks,
downstream registration, job capabilities, tool budgets, inbox intake with
replay keys and holds, coalescing notices, turn start, completion and
interruption, restart reconciliation of orphaned turns, schema migration, and
window speech. The kernel's effect, receipt and thinking lifecycles, row
rebuilding of old schemas, bucket checks and detail clipping have no caller
there yet. The
window rate limiter lives in `app/` too, as it counts in floating point.

`tests/` exercises the library on concrete values.
