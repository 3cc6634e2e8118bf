//! Verified core of the ReportMate admin command line.
pub mod cli;
pub mod client;
pub mod config;
pub mod error;
pub mod json;
pub mod laws;
pub mod request_laws;
pub mod output;
pub mod query;
pub mod resolve;
pub mod routes;
pub mod text;
