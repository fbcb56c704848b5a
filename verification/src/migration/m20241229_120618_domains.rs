//! The migration that creates the `domains` table.

use vstd::prelude::*;
use crate::migration::{
    cascading_key, column, column_names_unique, keyed_by_id, keys_cascade_to_ids, keys_leave_required_integers,
    ColumnKind, ForeignKeyAction, ForeignKeyView, TableSpec,
};

verus! {

/// Creates the `domains` table; rolling back drops it.
pub struct Migration;

/// The `domains` table: an id, an optional domain name and status, and the
/// owning user, whose removal or renumbering carries over to the domain.
pub open spec fn domains_table() -> (Seq<char>, Seq<(Seq<char>, ColumnKind)>, Seq<ForeignKeyView>) {
    (
        "domains"@,
        seq![
            ("id"@, ColumnKind::PrimaryKeyAuto),
            ("domain"@, ColumnKind::StringNull),
            ("status"@, ColumnKind::StringNull),
            ("users_id"@, ColumnKind::Integer),
        ],
        seq![
            (
                "fk-domains-users"@,
                "domains"@,
                "users_id"@,
                "users"@,
                "id"@,
                ForeignKeyAction::Cascade,
                ForeignKeyAction::Cascade,
            ),
        ],
    )
}

impl Migration {
    /// The table this migration creates.
    pub fn up(&self) -> (t: TableSpec)
        ensures
            t@ == domains_table(),
    {
        let mut columns = Vec::new();
        columns.push(column("id", ColumnKind::PrimaryKeyAuto));
        columns.push(column("domain", ColumnKind::StringNull));
        columns.push(column("status", ColumnKind::StringNull));
        columns.push(column("users_id", ColumnKind::Integer));
        let mut foreign_keys = Vec::new();
        foreign_keys.push(cascading_key("fk-domains-users", "domains", "users_id", "users", "id"));
        let t = TableSpec { name: String::from_str("domains"), columns, foreign_keys };
        assert(t@.1 =~= domains_table().1);
        assert(t@.2 =~= domains_table().2);
        t
    }

    /// The table that rolling this migration back drops.
    pub fn down(&self) -> (name: String)
        ensures
            name@ == dropped_table(),
    {
        String::from_str("domains")
    }
}

/// The table that rolling the migration back drops.
pub open spec fn dropped_table() -> Seq<char> {
    "domains"@
}

/// Rolling the migration back drops exactly the table it created.
pub proof fn lemma_down_undoes_up()
    ensures
        dropped_table() == domains_table().0,
{
}

/// Every foreign key of the table starts at one of its own columns.
pub proof fn lemma_foreign_keys_start_here(i: int)
    requires
        0 <= i < domains_table().2.len(),
    ensures
        domains_table().2[i].1 == domains_table().0,
        exists|j: int|
            0 <= j < domains_table().1.len() && #[trigger] domains_table().1[j].0
                == domains_table().2[i].2,
{
    assert(domains_table().1[3].0 == "users_id"@);
}

/// The table is keyed by `id`, its column names are distinct, and each of
/// its foreign keys leaves from a required integer column of its own and
/// points, cascading, at the `id` of another table.
pub proof fn lemma_schema_well_formed()
    ensures
        keyed_by_id(domains_table()),
        column_names_unique(domains_table()),
        keys_leave_required_integers(domains_table()),
        keys_cascade_to_ids(domains_table()),
{
    let t = domains_table();
    reveal_strlit("domain");
    reveal_strlit("domains");
    reveal_strlit("id");
    reveal_strlit("status");
    reveal_strlit("users");
    reveal_strlit("users_id");
    assert(t.1[3] == ("users_id"@, ColumnKind::Integer));
    assert(t.2[0].2 == "users_id"@);
    assert(t.1.contains((t.2[0].2, ColumnKind::Integer)));
    assert("id"@ != "domain"@) by {
        assert("id"@.len() != "domain"@.len());
    }
    assert("id"@ != "status"@) by {
        assert("id"@.len() != "status"@.len());
    }
    assert("id"@ != "users_id"@) by {
        assert("id"@.len() != "users_id"@.len());
    }
    assert("domain"@ != "status"@) by {
        assert("domain"@[0] != "status"@[0]);
    }
    assert("domain"@ != "users_id"@) by {
        assert("domain"@.len() != "users_id"@.len());
    }
    assert("status"@ != "users_id"@) by {
        assert("status"@.len() != "users_id"@.len());
    }
    assert("users"@ != "domains"@) by {
        assert("users"@.len() != "domains"@.len());
    }
}

} // verus!
