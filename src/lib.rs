//! An in-memory key-value store on string keys and string values, and the
//! request handling that exposes it over HTTP.

pub mod api;
pub mod laws;
pub mod store;
