# audio_cpp

Bindings for the `audio.cpp` generic voice runtime, in two parts.

- `src/` is a library verified with Verus. It holds the typed request model
  (tasks, backends, run modes, artifacts, audio and voice conditions), the
  encoding of typed task options into the string map the runtime reads, the
  ordered `StringMap` those maps live in, the interior-NUL checks made before
  any text crosses the C ABI, the mapping of native status codes to errors,
  the rules for locating a family's bundled model spec, and the checks a
  session makes before it calls into the runtime. Each public function states
  its result in its contract; laws that relate several functions are public
  proof functions.
- `app/` is plain Rust around it: the C ABI declarations, the RAII
  `Registry` / `Model` / `Session` handles, the copies of native results into
  the library's types, and the error type with `Display`.

Floating-point values cross into the library as text (options) or as IEEE-754
bit patterns (samples, times), so that the library holds no float.

`tests/` exercises the library from outside.
