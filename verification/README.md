# postgrest

A PostgREST client-side library written in Verus.

- `src/client.rs`: `Postgrest`, the client configuration (base URL, schema,
  headers, HTTP client) and the queries it makes for tables (`from`) and stored
  procedures (`rpc`).
- `src/builder.rs`: `Builder`, the target URL, schema, headers, client and
  parameters of one query.
- `src/error.rs`: `ExecuteError` and `ResponseMetadata`, the errors of executing a
  query and the response data they keep.
- `src/header.rs`: the rules for header names and values, over bytes.
- `src/transport.rs`: the `reqwest` and `http` types and the trusted calls into them.
- `src/laws.rs`: properties of the configuration across calls.
- `app/lib.rs`: `Display` and `std::error::Error` for the error type.
