//! Request pipeline of an HTTP facade over a semantic engine: middleware plan,
//! routing, admission of requests, replies, and the server handle.

pub mod address;
pub mod config;
pub mod pipeline;
pub mod request;
pub mod routes;
pub mod server;
