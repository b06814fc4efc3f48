//! The SQL text the repositories send.

pub mod figure;
pub mod profile;
pub mod user;
