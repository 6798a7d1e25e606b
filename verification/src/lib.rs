//! Asset loading: identifiers, sources, the loader's shared state machine and the
//! small protocols around it.
pub mod text;
pub mod id;
pub mod loader;
pub mod error;
pub mod source;
pub mod shards;
pub mod sources;
pub mod asset;
pub mod key;
pub mod ffi;
pub mod paths;
pub mod treasury;
pub mod handle;
pub mod derive;
pub mod channel;
pub mod process;
pub mod cache;
pub mod wasm;
