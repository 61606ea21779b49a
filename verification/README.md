# covey

The core of the covey command palette, verified with Verus.

- `src/` is the verified library: keyed lists with unique IDs, hotkey
  parsing and display, the bookkeeping of the lists a plugin returns and of
  their command callbacks, the host's ordering of queries and results, the
  launcher window's decisions, the arguments of the manifest macro, and the
  names and types of the code generated from a manifest.
- `tests/` runs the library on concrete values.
- `app/` is the unverified glue: serde forms of the library's types, reading
  configuration and manifests, the JSON lines protocol, the single-instance
  socket, spawning programs, and the floating-point ranking and style.
