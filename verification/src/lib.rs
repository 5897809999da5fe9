//! A small blog library: posts stored under URL slugs, looked up and listed
//! through handlers that map data-layer outcomes to HTTP responses, with
//! page rendering delegated to the tera template engine.

pub mod config;
pub mod errors;
pub mod handlers;
pub mod laws;
pub mod models;
mod render;
pub mod store;
pub mod text;
