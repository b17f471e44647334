//! Attaches a PostgreSQL connection pool to a web application's lifecycle and
//! hands a shared handle to that pool to each request that asks for one.

pub mod config;
pub mod fairing;
pub mod pool;
pub mod registry;
pub mod laws;
