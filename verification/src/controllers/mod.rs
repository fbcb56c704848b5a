//! The decisions that the service's request handlers make.

pub mod domain;
pub mod shortlinks;
