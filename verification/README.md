# sockudo_redis

The Redis coordination logic of Sockudo, verified with Verus.

- `src/coordinator.rs`, `src/counter.rs`: the delta-interval counter that the
  nodes of a cluster share through Redis. The coordinator builds counter keys
  and starts each operation; `IncrementAndCheck` decides, reply by reply,
  which Redis command comes next and what the outcome is.
- `src/counter_model.rs`: a model of how Redis answers those commands, and the
  laws of the protocol proved against it (a full message every `interval`
  increments, reads after increments and resets).
- `src/queue.rs`, `src/duration.rs`: timeouts, backends and the cached command
  connection of the Redis-backed queue.
- `src/cluster_client.rs`: building Redis Cluster clients with the `redis` crate.
- `app/`: the Redis I/O around the library (connections, running commands).
