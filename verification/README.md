# goods

An asset loading library whose decisions are verified with Verus.

`src/` holds the library, all of it verified by Verus:

- `id` – asset identifiers and their hexadecimal text.
- `loader` – the loader's per-type tables: requests by identifier and by path,
  the search and load outcomes, handles, lookups and building decoded assets.
- `cache`, `handle`, `channel`, `process` – the handle cache, handles and
  shared futures, set-once slots and queues, and the build queues per context.
- `source`, `sources`, `shards` – asking sources in order, the sources that
  come with the loader, and the loader's configuration.
- `derive` – what the `Asset` and `AssetField` derives decide about a struct.
- `treasury`, `ffi`, `wasm`, `paths` – the asset store, the buffer protocol
  with importer plugins, WebAssembly importers, and relative paths.
- `error`, `key`, `asset`, `text` – errors and their texts, keys, formats,
  and string helpers.

Wakers are named by numbers; an operation returns the wakers to wake and the
loads to start. `app/` holds the parts that touch files, clocks, directories
and serde.
