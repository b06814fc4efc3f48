//! Names of the `figures` table and its columns.

use vstd::prelude::*;

verus! {

/// The `figures` table and its columns.
pub enum FigureDef {
    Table,
    Id,
    Title,
    Description,
    Width,
    Height,
    Url,
    ProfileId,
}

impl FigureDef {
    /// The bare name.
    pub open spec fn name(self) -> Seq<char> {
        match self {
            FigureDef::Table => "figures"@,
            FigureDef::Id => "id"@,
            FigureDef::Title => "title"@,
            FigureDef::Description => "description"@,
            FigureDef::Width => "width"@,
            FigureDef::Height => "height"@,
            FigureDef::Url => "url"@,
            FigureDef::ProfileId => "profile_id"@,
        }
    }

    /// The name qualified by the table name.
    pub open spec fn qualified_name(self) -> Seq<char> {
        match self {
            FigureDef::Table => "figures"@,
            FigureDef::Id => "figures.id"@,
            FigureDef::Title => "figures.title"@,
            FigureDef::Description => "figures.description"@,
            FigureDef::Width => "figures.width"@,
            FigureDef::Height => "figures.height"@,
            FigureDef::Url => "figures.url"@,
            FigureDef::ProfileId => "figures.profile_id"@,
        }
    }

    /// The name a column is selected under: the id has an alias of its own.
    pub open spec fn unique_name(self) -> Seq<char> {
        match self {
            FigureDef::Id => "figure_id"@,
            _ => self.qualified_name(),
        }
    }

    pub fn as_str(&self) -> (name: &str)
        ensures
            name@ == self.name(),
    {
        match self {
            FigureDef::Table => "figures",
            FigureDef::Id => "id",
            FigureDef::Title => "title",
            FigureDef::Description => "description",
            FigureDef::Width => "width",
            FigureDef::Height => "height",
            FigureDef::Url => "url",
            FigureDef::ProfileId => "profile_id",
        }
    }

    pub fn as_table_str(&self) -> (name: &str)
        ensures
            name@ == self.qualified_name(),
    {
        match self {
            FigureDef::Table => "figures",
            FigureDef::Id => "figures.id",
            FigureDef::Title => "figures.title",
            FigureDef::Description => "figures.description",
            FigureDef::Width => "figures.width",
            FigureDef::Height => "figures.height",
            FigureDef::Url => "figures.url",
            FigureDef::ProfileId => "figures.profile_id",
        }
    }

    pub fn unique(&self) -> (name: &str)
        ensures
            name@ == self.unique_name(),
    {
        match self {
            FigureDef::Id => "figure_id",
            _ => self.as_table_str(),
        }
    }
}

/// Every column's qualified name is the table's name, a dot and the column's
/// name.
pub proof fn lemma_figure_columns_qualified_by_table(column: FigureDef)
    ensures
        !(column is Table) ==> column.qualified_name() == FigureDef::Table.name() + "."@
            + column.name(),
{
    reveal_strlit("figures");
    reveal_strlit(".");
    match column {
        FigureDef::Table => {},
        FigureDef::Id => {
            reveal_strlit("id");
            reveal_strlit("figures.id");
            assert(column.qualified_name() =~= FigureDef::Table.name() + "."@ + column.name());
        },
        FigureDef::Title => {
            reveal_strlit("title");
            reveal_strlit("figures.title");
            assert(column.qualified_name() =~= FigureDef::Table.name() + "."@ + column.name());
        },
        FigureDef::Description => {
            reveal_strlit("description");
            reveal_strlit("figures.description");
            assert(column.qualified_name() =~= FigureDef::Table.name() + "."@ + column.name());
        },
        FigureDef::Width => {
            reveal_strlit("width");
            reveal_strlit("figures.width");
            assert(column.qualified_name() =~= FigureDef::Table.name() + "."@ + column.name());
        },
        FigureDef::Height => {
            reveal_strlit("height");
            reveal_strlit("figures.height");
            assert(column.qualified_name() =~= FigureDef::Table.name() + "."@ + column.name());
        },
        FigureDef::Url => {
            reveal_strlit("url");
            reveal_strlit("figures.url");
            assert(column.qualified_name() =~= FigureDef::Table.name() + "."@ + column.name());
        },
        FigureDef::ProfileId => {
            reveal_strlit("profile_id");
            reveal_strlit("figures.profile_id");
            assert(column.qualified_name() =~= FigureDef::Table.name() + "."@ + column.name());
        },
    }
}

} // verus!
