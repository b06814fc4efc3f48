//! Names of the `figure` table and its columns.

use vstd::prelude::*;

verus! {

/// The `figure` table: its name and its columns, qualified by the table name.
pub struct FigureDef;

impl FigureDef {
    pub const TABLE: &'static str = "figure";

    pub const ID: &'static str = "figure.id";

    /// The alias a figure's id is selected under when joined with a profile.
    pub const ID_UNIQUE: &'static str = "u_figure_id";

    pub const TITLE: &'static str = "figure.title";

    pub const DESCRIPTION: &'static str = "figure.description";

    pub const WIDTH: &'static str = "figure.width";

    pub const HEIGHT: &'static str = "figure.height";

    pub const URL: &'static str = "figure.url";

    pub const PROFILE_ID: &'static str = "figure.profile_id";
}

} // verus!
