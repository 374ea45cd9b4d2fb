# rust_vector_logger

A logger that sends JSON records to a Vector instance over TCP.

- `src/` is the verified library (Verus). `level` decides which severities a
  configured level lets through; `message` and `json` build a record and its JSON
  text (serde_json encodes each field, the library frames the object); `clock`
  renders the timestamp with chrono; `address` writes `host:port`; `settings`
  puts these together into what one log call comes to (`Dispatch`).
- `app/` holds the async `Logger` that owns the TCP stream, writes what the
  library prepared, and echoes sent records to the `log` facade.
- `tests/` exercises the library on concrete values.
