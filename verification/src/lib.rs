//! Client-side logic for the read-only JSON API that a running game exposes on
//! the local machine: request descriptors, the retry policy for a server that
//! is not ready yet, the taxonomy of failures, and verified decoders from a
//! JSON document to typed match data.

pub mod live;
pub mod models;
