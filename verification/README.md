# wayland_protocols_async

The state and decision logic of a set of asynchronous Wayland protocol
clients (idle notification, session lock, foreign toplevel management,
output management, screencopy, input method, virtual keyboard), written in
Verus with its contracts proved.

- `src/` is the verified library. Each protocol has a module with
  `errors.rs` (error codes and messages), `handler.rs` (the state that the
  client keeps, how each compositor event changes it, and which request each
  call sends) and `laws.rs` (properties that span several calls, stated as
  proof functions). `protocol_objects.rs` declares the Wayland proxy types
  that the state carries.
- `tests/` runs the library on concrete values.
- `app/` holds what Verus does not see: the Wayland connection, the event
  queues, the tokio tasks and channels, shared memory, and the conversion of
  Wayland events into the library's events.
