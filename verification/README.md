# persistent

Resources that stay synchronized with a storage: a file, or browser storage.

`src/` is the verified library. A `Persistent<R>` holds a resource, its default,
its storage and storage format, and decides every step of its operations
(creation, set, update, persist, unload, reload, revert). Work on the storage is
asked for through `Step::Perform(Request)` and answered with
`Persistent::resume(Outcome)`; `src/medium.rs` states what the operations come to
over a reliable storage. `StorageFormat` turns encoder output into stored bytes
and stored bytes into decoder input, and `Storage` shows storages and selects
browser storage from paths.

`app/` performs the work: the filesystem, and serde encoders and decoders for
Bincode, INI, JSON, RON, TOML and YAML.
