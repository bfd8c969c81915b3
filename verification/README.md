# welds_connections (turso backend)

Conversions between Rust values and the values a turso database stores,
verified with Verus, plus the thin client code that drives turso.

- `src/` is the verified library: stored values and their model (`value`),
  statement parameters (`param`), reading values back (`decode`), rows
  (`row`), dates and date-times (`temporal`), UUIDs (`uuids`), connection
  URLs (`path`), decimal text (`text`), errors (`error`) and the properties
  proved across them (`laws`). Calls into chrono and uuid go through small
  wrappers whose contracts are stated where they are declared.
- `app/` holds what Verus does not see: the async and blocking clients, the
  transactions, the tokio runtime, and the conversions to and from turso's
  own types.
- `tests/` runs the library on concrete values.
