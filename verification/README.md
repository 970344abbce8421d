# banyan_cli

The logic of the Banyan command line client, written in Verus: the functions in
`src/` carry contracts that Verus proves. Four small wrappers around outside crates
(`uuid`, `bytesize`, `serde_json`, `url`) are the exception: their contracts state what
those crates do and are trusted, not proved.

- `src/` — the verified library: Drive bookkeeping and sync-state classification
  (`omni`, `omni_ops`), the client configuration (`config`), block tracking
  (`tracker`), path handling (`paths`, `xdg`), the listings and decisions behind the
  commands (`cli`), preparing, restoring and unpacking Drives (`operations`, `unpack`),
  uploads (`push`, `stores`), usage tables (`usage`), errors and styled messages.
  `laws` gathers the properties that relate several functions.
- `tests/` — tests on concrete values.
- `app/` — the program around the library: argument parsing, logging, files on disk,
  terminal output and the calls into the platform and the banyanfs filesystem.
