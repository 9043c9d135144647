//! Configuration and routing logic of the rpxy reverse proxy: how a parsed
//! configuration becomes proxy settings, TLS certificate sources and ACME
//! parameters, and how an incoming server name finds its backend application.

pub mod text;
pub mod error;
pub mod paths;
pub mod config;
pub mod acme;
pub mod keyed;
pub mod certs;
pub mod backend;
pub mod opts;
