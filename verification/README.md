# gcloud_core

Verified logic of a few Google Cloud client components, written in Verus.

- `src/api_key_credentials.rs`: the API key credentials builder, the token it
  hands out, and the request headers it builds (key marked sensitive, quota
  project not); the quota project from the environment wins over the
  configured one.
- `src/http_headers.rs`: the trusted items for the `http` crate's header
  values and header maps.
- `src/longrunning.rs`, `src/longrunning/operation.rs`, `src/rpc.rs`: the
  `google.longrunning` messages and `google.rpc.Status`, with the full names
  and type URLs of the messages.
- `src/keepalive.rs`, `src/watchdog.rs`, `src/stream.rs`: the decisions of the
  tasks that keep a Pub/Sub streaming pull alive, as state machines over
  millisecond timestamps, with the laws they keep.

`app/` holds what cannot be verified: reading the environment and the clock,
the tokio tasks that drive the state machines, the prost wire forms of the
messages, and the floating-point `LatLng` conversions.
