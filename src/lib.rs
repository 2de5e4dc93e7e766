//! A filesystem bridge over a notebook server's content API, and the
//! planner for scp-style transfers through it.
//!
//! Everything here is pure: the HTTP exchanges, the local disk and the wire
//! protocols stay with the caller, which hands this library the values it
//! received and performs the requests and actions that the library decides.
pub mod adapter;
pub mod base_path;
pub mod client;
pub mod codec;
pub mod entry;
pub mod executor;
pub mod fs;
pub mod laws;
pub mod model;
pub mod paths;
pub mod plan;
pub mod terminal;
pub mod text;
