//! A verified core for a key-value-store-backed virtual filesystem.
//!
//! Every stored key appears as a file in a single flat directory; file
//! content is the key's value. The library holds the logic that bridges a
//! byte-range, handle-based file API and a whole-value, key-addressed store:
//! an identifier registry, a write-buffering layer, and the filesystem
//! operation handler. The store itself (GET/SET/LIST over the network) is an
//! external collaborator: the functions here decide what to ask of it and
//! what to do with each possible answer.

pub mod dash;
pub mod driver;
pub mod errors;
pub mod fs;
pub mod laws;
pub mod state;
