//! The client side of collection syncing: what is decided, computed and packed while a
//! collection is brought in step with its server, free of I/O.

pub mod changes;
pub mod chunk;
pub mod collection;
pub mod error;
pub mod graves;
pub mod ids;
pub mod laws;
pub mod merge;
pub mod newest;
pub mod objects;
pub mod pending;
pub mod progress;
pub mod run;
pub mod sanity;
pub mod session;
pub mod state;
pub mod steps;
pub mod syncer;
pub mod text;
pub mod transfer;
