//! Request building, naming and parameter resolution for the mochify.app
//! image and PDF processing API.

pub mod text;
pub mod params;
pub mod query;
pub mod variants;
pub mod prompt_map;
pub mod errors;
pub mod pdf;
pub mod naming;
pub mod api;
pub mod summary;
pub mod cli;
pub mod auth;
pub mod mcp;
pub mod credentials;
