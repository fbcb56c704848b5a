//! The database schema, migration by migration: the table each migration
//! creates and the table it drops when it is rolled back.

pub mod m20241229_120618_domains;
pub mod m20241229_121123_shortlinks;

use vstd::prelude::*;

verus! {

/// How a column is declared.
#[derive(PartialEq, Eq, Structural, Clone, Copy, Debug)]
pub enum ColumnKind {
    /// An auto-incremented integer primary key.
    PrimaryKeyAuto,
    /// An integer that may not be NULL.
    Integer,
    /// An integer that may be NULL.
    IntegerNull,
    /// A string that may be NULL.
    StringNull,
}

/// What happens to a referencing row when the referenced row is deleted or
/// its key changes.
#[derive(PartialEq, Eq, Structural, Clone, Copy, Debug)]
pub enum ForeignKeyAction {
    Restrict,
    Cascade,
    SetNull,
    NoAction,
    SetDefault,
}

/// One column of a table.
#[derive(PartialEq, Eq, Clone, Debug)]
pub struct ColumnSpec {
    pub name: String,
    pub kind: ColumnKind,
}

/// A foreign key from a column of one table to a column of another.
#[derive(PartialEq, Eq, Clone, Debug)]
pub struct ForeignKeySpec {
    pub name: String,
    pub from_table: String,
    pub from_column: String,
    pub to_table: String,
    pub to_column: String,
    pub on_delete: ForeignKeyAction,
    pub on_update: ForeignKeyAction,
}

/// A table to create, with automatic creation and update timestamps, only
/// if it does not exist yet.
#[derive(PartialEq, Eq, Clone, Debug)]
pub struct TableSpec {
    pub name: String,
    pub columns: Vec<ColumnSpec>,
    pub foreign_keys: Vec<ForeignKeySpec>,
}

/// A foreign key, its texts taken as character sequences.
pub type ForeignKeyView = (Seq<char>, Seq<char>, Seq<char>, Seq<char>, Seq<char>, ForeignKeyAction, ForeignKeyAction);

impl View for ColumnSpec {
    type V = (Seq<char>, ColumnKind);

    open spec fn view(&self) -> (Seq<char>, ColumnKind) {
        (self.name@, self.kind)
    }
}

impl View for ForeignKeySpec {
    type V = ForeignKeyView;

    open spec fn view(&self) -> ForeignKeyView {
        (
            self.name@,
            self.from_table@,
            self.from_column@,
            self.to_table@,
            self.to_column@,
            self.on_delete,
            self.on_update,
        )
    }
}

impl View for TableSpec {
    type V = (Seq<char>, Seq<(Seq<char>, ColumnKind)>, Seq<ForeignKeyView>);

    open spec fn view(&self) -> (Seq<char>, Seq<(Seq<char>, ColumnKind)>, Seq<ForeignKeyView>) {
        (
            self.name@,
            self.columns@.map_values(|c: ColumnSpec| c@),
            self.foreign_keys@.map_values(|k: ForeignKeySpec| k@),
        )
    }
}

/// A table described by its view: name, columns and foreign keys.
pub type TableView = (Seq<char>, Seq<(Seq<char>, ColumnKind)>, Seq<ForeignKeyView>);

/// The table's first column is `id`, its auto-incremented primary key, and
/// no other column is one.
pub open spec fn keyed_by_id(t: TableView) -> bool {
    &&& t.1.len() > 0
    &&& t.1[0] == ("id"@, ColumnKind::PrimaryKeyAuto)
    &&& forall|j: int| 0 < j < t.1.len() ==> (#[trigger] t.1[j]).1 != ColumnKind::PrimaryKeyAuto
}

/// Every foreign key leaves from a column of the table that is declared as
/// an integer that may not be NULL.
pub open spec fn keys_leave_required_integers(t: TableView) -> bool {
    forall|k: int|
        0 <= k < t.2.len() ==> (#[trigger] t.2[k]).1 == t.0 && t.1.contains((t.2[k].2, ColumnKind::Integer))
}

/// Every foreign key points at the `id` of another table and carries deletes
/// and key updates over.
pub open spec fn keys_cascade_to_ids(t: TableView) -> bool {
    forall|k: int|
        0 <= k < t.2.len() ==> (#[trigger] t.2[k]).4 == "id"@ && t.2[k].3 != t.0 && t.2[k].5
            == ForeignKeyAction::Cascade && t.2[k].6 == ForeignKeyAction::Cascade
}

/// No two columns of the table share a name.
pub open spec fn column_names_unique(t: TableView) -> bool {
    forall|i: int, j: int| 0 <= i < j < t.1.len() ==> (#[trigger] t.1[i]).0 != (#[trigger] t.1[j]).0
}

/// A column named `name` declared as `kind`.
pub fn column(name: &str, kind: ColumnKind) -> (c: ColumnSpec)
    ensures
        c@ == (name@, kind),
{
    ColumnSpec { name: String::from_str(name), kind }
}

/// A foreign key named `name` from `from_table.from_column` to
/// `to_table.to_column` that cascades both deletes and key updates.
pub fn cascading_key(name: &str, from_table: &str, from_column: &str, to_table: &str, to_column: &str) -> (k: ForeignKeySpec)
    ensures
        k@ == (
            name@,
            from_table@,
            from_column@,
            to_table@,
            to_column@,
            ForeignKeyAction::Cascade,
            ForeignKeyAction::Cascade,
        ),
{
    ForeignKeySpec {
        name: String::from_str(name),
        from_table: String::from_str(from_table),
        from_column: String::from_str(from_column),
        to_table: String::from_str(to_table),
        to_column: String::from_str(to_column),
        on_delete: ForeignKeyAction::Cascade,
        on_update: ForeignKeyAction::Cascade,
    }
}

} // verus!
