//! The live client data API.

pub mod client;
pub mod config;
pub mod decode;
pub mod endpoints;
pub mod error;
pub mod events;
pub mod json;
pub mod models;
