# granite_client

A client core for the Granite approval service, written in Verus.

- `src/` is the verified library: the wire contract (`model`), the header
  policy (`headers`), the destructive-intent taxonomy (`intent`), the
  client's request, response and await logic (`client`), its error type
  (`error`) and the text routines they share (`text`).
- `app/` is the async HTTP transport around it: serde forms of the wire
  types, the `reqwest` calls and the `tokio` await loop.
- `tests/` runs the library on concrete values.
