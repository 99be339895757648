# unwarp

Route building on top of `warp`, with the route model verified by Verus.

- `src/` — the verified library: HTTP methods (`method.rs`), path
  segmentation and its laws (`path.rs`), route builders (`route.rs`), status
  codes and their laws (`status.rs`), the route registry (`server.rs`), and
  the trusted points where `warp` and `http` are called (`filters.rs`).
- `app/` — the parts that run on `warp` directly: async handlers, reply
  helpers, serving, and the `unwarp!` macro.
- `tests/` — tests of the library, run against the real `warp`.
