//! The migration that creates the `shortlinks` table.

use vstd::prelude::*;
use crate::migration::{
    cascading_key, column, column_names_unique, keyed_by_id, keys_cascade_to_ids, keys_leave_required_integers,
    ColumnKind, ForeignKeyAction, ForeignKeyView, TableSpec,
};

verus! {

/// Creates the `shortlinks` table; rolling back drops it.
pub struct Migration;

/// The `shortlinks` table: an id, an optional short code, URL and click
/// count, the owning user and domain, and an optional visibility; removing
/// or renumbering the user or the domain carries over to the shortlink.
pub open spec fn shortlinks_table() -> (Seq<char>, Seq<(Seq<char>, ColumnKind)>, Seq<ForeignKeyView>) {
    (
        "shortlinks"@,
        seq![
            ("id"@, ColumnKind::PrimaryKeyAuto),
            ("shortlink"@, ColumnKind::StringNull),
            ("url"@, ColumnKind::StringNull),
            ("clicks"@, ColumnKind::IntegerNull),
            ("users_id"@, ColumnKind::Integer),
            ("domain_id"@, ColumnKind::Integer),
            ("status_public"@, ColumnKind::StringNull),
        ],
        seq![
            (
                "fk-shortlinks-users"@,
                "shortlinks"@,
                "users_id"@,
                "users"@,
                "id"@,
                ForeignKeyAction::Cascade,
                ForeignKeyAction::Cascade,
            ),
            (
                "fk-shortlinks-domains"@,
                "shortlinks"@,
                "domain_id"@,
                "domains"@,
                "id"@,
                ForeignKeyAction::Cascade,
                ForeignKeyAction::Cascade,
            ),
        ],
    )
}

/// The table that rolling the migration back drops.
pub open spec fn dropped_table() -> Seq<char> {
    "shortlinks"@
}

impl Migration {
    /// The table this migration creates.
    pub fn up(&self) -> (t: TableSpec)
        ensures
            t@ == shortlinks_table(),
    {
        let mut columns = Vec::new();
        columns.push(column("id", ColumnKind::PrimaryKeyAuto));
        columns.push(column("shortlink", ColumnKind::StringNull));
        columns.push(column("url", ColumnKind::StringNull));
        columns.push(column("clicks", ColumnKind::IntegerNull));
        columns.push(column("users_id", ColumnKind::Integer));
        columns.push(column("domain_id", ColumnKind::Integer));
        columns.push(column("status_public", ColumnKind::StringNull));
        let mut foreign_keys = Vec::new();
        foreign_keys.push(cascading_key("fk-shortlinks-users", "shortlinks", "users_id", "users", "id"));
        foreign_keys.push(cascading_key("fk-shortlinks-domains", "shortlinks", "domain_id", "domains", "id"));
        let t = TableSpec { name: String::from_str("shortlinks"), columns, foreign_keys };
        assert(t@.1 =~= shortlinks_table().1);
        assert(t@.2 =~= shortlinks_table().2);
        t
    }

    /// The table that rolling this migration back drops.
    pub fn down(&self) -> (name: String)
        ensures
            name@ == dropped_table(),
    {
        String::from_str("shortlinks")
    }
}

/// Rolling the migration back drops exactly the table it created.
pub proof fn lemma_down_undoes_up()
    ensures
        dropped_table() == shortlinks_table().0,
{
}

/// Every foreign key of the table starts at one of its own columns.
pub proof fn lemma_foreign_keys_start_here(i: int)
    requires
        0 <= i < shortlinks_table().2.len(),
    ensures
        shortlinks_table().2[i].1 == shortlinks_table().0,
        exists|j: int|
            0 <= j < shortlinks_table().1.len() && #[trigger] shortlinks_table().1[j].0
                == shortlinks_table().2[i].2,
{
    assert(shortlinks_table().1[4].0 == "users_id"@);
    assert(shortlinks_table().1[5].0 == "domain_id"@);
}

/// The table is keyed by `id`, its column names are distinct, and each of
/// its foreign keys leaves from a required integer column of its own and
/// points, cascading, at the `id` of another table.
pub proof fn lemma_schema_well_formed()
    ensures
        keyed_by_id(shortlinks_table()),
        column_names_unique(shortlinks_table()),
        keys_leave_required_integers(shortlinks_table()),
        keys_cascade_to_ids(shortlinks_table()),
{
    let t = shortlinks_table();
    reveal_strlit("clicks");
    reveal_strlit("domain_id");
    reveal_strlit("domains");
    reveal_strlit("id");
    reveal_strlit("shortlink");
    reveal_strlit("shortlinks");
    reveal_strlit("status_public");
    reveal_strlit("url");
    reveal_strlit("users");
    reveal_strlit("users_id");
    assert(t.1[4] == ("users_id"@, ColumnKind::Integer));
    assert(t.1[5] == ("domain_id"@, ColumnKind::Integer));
    assert(t.1.contains((t.2[0].2, ColumnKind::Integer)));
    assert(t.1.contains((t.2[1].2, ColumnKind::Integer)));
    assert("id"@ != "shortlink"@) by {
        assert("id"@.len() != "shortlink"@.len());
    }
    assert("id"@ != "url"@) by {
        assert("id"@.len() != "url"@.len());
    }
    assert("id"@ != "clicks"@) by {
        assert("id"@.len() != "clicks"@.len());
    }
    assert("id"@ != "users_id"@) by {
        assert("id"@.len() != "users_id"@.len());
    }
    assert("id"@ != "domain_id"@) by {
        assert("id"@.len() != "domain_id"@.len());
    }
    assert("id"@ != "status_public"@) by {
        assert("id"@.len() != "status_public"@.len());
    }
    assert("shortlink"@ != "url"@) by {
        assert("shortlink"@.len() != "url"@.len());
    }
    assert("shortlink"@ != "clicks"@) by {
        assert("shortlink"@.len() != "clicks"@.len());
    }
    assert("shortlink"@ != "users_id"@) by {
        assert("shortlink"@.len() != "users_id"@.len());
    }
    assert("shortlink"@ != "domain_id"@) by {
        assert("shortlink"@[0] != "domain_id"@[0]);
    }
    assert("shortlink"@ != "status_public"@) by {
        assert("shortlink"@.len() != "status_public"@.len());
    }
    assert("url"@ != "clicks"@) by {
        assert("url"@.len() != "clicks"@.len());
    }
    assert("url"@ != "users_id"@) by {
        assert("url"@.len() != "users_id"@.len());
    }
    assert("url"@ != "domain_id"@) by {
        assert("url"@.len() != "domain_id"@.len());
    }
    assert("url"@ != "status_public"@) by {
        assert("url"@.len() != "status_public"@.len());
    }
    assert("clicks"@ != "users_id"@) by {
        assert("clicks"@.len() != "users_id"@.len());
    }
    assert("clicks"@ != "domain_id"@) by {
        assert("clicks"@.len() != "domain_id"@.len());
    }
    assert("clicks"@ != "status_public"@) by {
        assert("clicks"@.len() != "status_public"@.len());
    }
    assert("users_id"@ != "domain_id"@) by {
        assert("users_id"@.len() != "domain_id"@.len());
    }
    assert("users_id"@ != "status_public"@) by {
        assert("users_id"@.len() != "status_public"@.len());
    }
    assert("domain_id"@ != "status_public"@) by {
        assert("domain_id"@.len() != "status_public"@.len());
    }
    assert("users"@ != "shortlinks"@) by {
        assert("users"@.len() != "shortlinks"@.len());
    }
    assert("domains"@ != "shortlinks"@) by {
        assert("domains"@.len() != "shortlinks"@.len());
    }
}

} // verus!
