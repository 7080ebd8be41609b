//! Decisions behind a module loader: how workspace options become settings,
//! how specifiers and referrers are resolved, how a requested module is
//! loaded, and what is handed back to the JavaScript caller.
//!
//! Reading files, the network and the JavaScript host are left to the
//! embedder. The state machines in [`resolve`] and [`load`] say what to do
//! next, and take back what came of it.

pub mod encoding;
pub mod error;
pub mod graph;
pub mod host;
pub mod load;
pub mod loader;
pub mod logging;
pub mod media;
pub mod package_json;
pub mod paths;
pub mod resolve;
pub mod response;
pub mod source_map;
pub mod text;
pub mod workspace;
