//! Task and work-log tracking: the in-memory repositories, the request
//! handlers that drive them, and the rules that tie them together.

pub mod clock;
pub mod config;
pub mod errors;
pub mod ident;
pub mod models;
pub mod repository;
pub mod routes;
pub mod state;
pub mod status;
pub mod utils;
