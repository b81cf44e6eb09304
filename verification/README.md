# litert

The verified core of Rust bindings to Google's LiteRT runtime and its
LiteRT-LM engine, written in Verus.

- `src/` — the library; every function has a contract, proved by Verus
  except for one trusted wrapper of `String::push`. It holds the
  status-code and element-type tables, the accelerator bitset and its
  algebra, the outcome of the C calls that create and configure options,
  LLM inputs and their JSON `content` encoding, sampler parameters, and the
  decisions of the workspace automation (targets, reachability, command
  line, build commands).
- `tests/` — executable tests of the library.
- `app/` — the parts that talk to the outside world: the C entry points,
  the handle-owning options object, `thiserror` copies of the error types,
  the `f32` face of the sampler parameters, and the `xtask` program.
