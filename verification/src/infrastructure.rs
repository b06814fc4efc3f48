//! Table and column names of the relational schema.

pub mod figure;
pub mod profile;
pub mod user;
pub mod user_table;
