//! The domain models and the rules they follow.

pub mod figure;
pub mod profile;
pub mod syntax;
pub mod user;

use vstd::prelude::*;

verus! {

/// Identifier of a stored row.
pub type IdType = i64;

} // verus!
