//! Verified core of a link-shortening service: short-code generation,
//! the decisions behind creating shortlinks and domains, the queries the
//! service runs, its route tables and its table schemas.

pub mod controllers;
pub mod http;
pub mod migration;
pub mod models;
pub mod rng;
pub mod text;
