# httpmock (verified builder)

A builder for HTTP mock definitions, verified with Verus.

- `src/` — the verified library:
  - `mock.rs`: `Mock`, the builder (each method is one `Expectation` step on the
    definition's view), and `MockRef`, the identifier of a created mock.
  - `data.rs`: the definition types, their views, `Expectation` and `apply`.
  - `string_map.rs`: name → value maps with distinct names (headers, query parameters).
  - `json.rs`: JSON texts checked with `serde_json`.
  - `method.rs`: HTTP methods.
  - `laws.rs`: properties of building that hold across calls.
- `app/` — talking to a mock server over HTTP, and the serde forms of the definition.
- `tests/` — tests of the builder.
