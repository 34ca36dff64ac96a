//! A script runs as a guest inside a preinitialised module, and reaches
//! the network through one bridge that the host guards with an allow-list.
//!
//! This library holds the decisions of that system: how guest values
//! become requests and responses become guest values ([`marshal`]), which
//! requests the bridge lets pass ([`bridge`]), what `console.log` writes
//! ([`console`]), in which order the runtime is bootstrapped
//! ([`bootstrap`]), and how a build and a run proceed ([`pipeline`]). The
//! engine, the network and the file system stay with the embedding.

pub mod bootstrap;
pub mod bridge;
pub mod console;
pub mod error;
pub mod headers;
pub mod host;
pub mod marshal;
pub mod pipeline;
pub mod record;
pub mod stability;
pub mod text;
pub mod value;
pub mod wire;
