//! Verified core of `dorisctl`, a command-line client for Apache Doris.
pub mod admin;
pub mod config;
pub mod connection;
pub mod describe;
pub mod diff;
pub mod http;
pub mod iceberg;
pub mod laws;
pub mod load;
pub mod order;
pub mod output;
pub mod postgres;
pub mod profile;
pub mod query;
pub mod schema;
pub mod spark;
pub mod statements;
pub mod text;
