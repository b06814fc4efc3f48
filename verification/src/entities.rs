//! Table and column names of the plural-named schema, as enumerations.

pub mod figure;
pub mod profile;
pub mod user;
