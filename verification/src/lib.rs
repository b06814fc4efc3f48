//! Domain logic of the figure-sharing backend: validation of users, profiles
//! and figures, the data transfer objects handed to clients, sessions and
//! their cookies, the SQL text the repositories send and what they answer, and
//! the checks a figure upload goes through.

pub mod context;
pub mod db;
pub mod domain;
pub mod dtos;
pub mod entities;
pub mod environment;
pub mod error;
pub mod infrastructure;
pub mod queries;
pub mod requests;
pub mod session;
pub mod storage;
pub mod text;
pub mod upload;
