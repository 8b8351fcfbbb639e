# kv_service

The request handling of a distributed key-value store, with its decisions verified by Verus.

- `src/` is the library. It turns requests into calls of the storage, of the garbage collector and
  of the replicas, turns their answers into responses, takes up the commands of batches, passes on
  the messages of streams, and says what is counted for each call.
- `app/` is the asynchronous shell around it. It runs futures, talks to the transport and records
  metrics. What it works with is given by the traits in `app/backend.rs`.
- `tests/` runs the library on concrete values.
