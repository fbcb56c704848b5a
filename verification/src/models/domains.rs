//! The `domains` table: its writable record, the queries on it and the
//! per-user domain limit.

use vstd::prelude::*;
use crate::models::FieldValue;

verus! {

/// A domain record as it is handed to the database for an insert or an
/// update, column by column.
#[derive(PartialEq, Eq, Clone, Debug)]
pub struct DomainRecord {
    pub id: FieldValue<i32>,
    pub domain: FieldValue<Option<String>>,
    pub status: FieldValue<Option<String>>,
    pub users_id: FieldValue<i32>,
}

impl DomainRecord {
    /// A record in which no column holds a value.
    pub open spec fn spec_unset() -> DomainRecord {
        DomainRecord {
            id: FieldValue::Unset,
            domain: FieldValue::Unset,
            status: FieldValue::Unset,
            users_id: FieldValue::Unset,
        }
    }
}

impl Default for DomainRecord {
    fn default() -> (r: DomainRecord)
        ensures
            r == DomainRecord::spec_unset(),
            r.id == FieldValue::<i32>::Unset,
            r.domain == FieldValue::<Option<String>>::Unset,
            r.status == FieldValue::<Option<String>>::Unset,
            r.users_id == FieldValue::<i32>::Unset,
    {
        DomainRecord {
            id: FieldValue::Unset,
            domain: FieldValue::Unset,
            status: FieldValue::Unset,
            users_id: FieldValue::Unset,
        }
    }
}

/// A query on the `domains` table. Every filter that is present must hold
/// of the rows it keeps.
#[derive(PartialEq, Eq, Clone, Debug)]
pub struct DomainQuery {
    /// The domain name equals this text.
    pub domain_eq: Option<String>,
    /// The owning user's id equals this value.
    pub users_id_eq: Option<i32>,
}

/// A stored domain row, as far as the service's rules look at it: its
/// domain name and the id of the user who owns it.
pub type DomainRow = (Option<Seq<char>>, i32);

impl DomainQuery {
    /// Whether the query keeps `row`: every filter that is present holds.
    pub open spec fn keeps(self, row: DomainRow) -> bool {
        &&& (self.domain_eq matches Some(d) ==> row.0 == Some(d@))
        &&& (self.users_id_eq matches Some(u) ==> row.1 == u)
    }
}

/// The number of rows of `table` that `q` keeps.
pub open spec fn count_kept(q: DomainQuery, table: Seq<DomainRow>) -> nat
    decreases table.len(),
{
    if table.len() == 0 {
        0
    } else {
        count_kept(q, table.drop_last()) + (if q.keeps(table.last()) { 1nat } else { 0nat })
    }
}

/// The number of rows of `table` owned by user `users_id`.
pub open spec fn owned_count(table: Seq<DomainRow>, users_id: i32) -> nat
    decreases table.len(),
{
    if table.len() == 0 {
        0
    } else {
        owned_count(table.drop_last(), users_id) + (if table.last().1 == users_id { 1nat } else { 0nat })
    }
}

/// Whether a row of `table` carries the domain name `domain`.
pub open spec fn domain_stored(table: Seq<DomainRow>, domain: Seq<char>) -> bool {
    exists|i: int| 0 <= i < table.len() && #[trigger] table[i].0 == Some(domain)
}

/// No two rows of `table` carry the same domain name.
pub open spec fn names_unique(table: Seq<DomainRow>) -> bool {
    forall|i: int, j: int|
        0 <= i < j < table.len() && (#[trigger] table[i]).0 is Some ==> table[i].0 != (#[trigger] table[j]).0
}

/// A user owns no more rows of `table` than there are.
pub proof fn lemma_owned_count_bounded(table: Seq<DomainRow>, users_id: i32)
    ensures
        owned_count(table, users_id) <= table.len(),
    decreases table.len(),
{
    if table.len() > 0 {
        lemma_owned_count_bounded(table.drop_last(), users_id);
    }
}

/// Adding a row adds one to its owner's count and leaves every other
/// user's count as it was.
pub proof fn lemma_owned_count_push(table: Seq<DomainRow>, row: DomainRow, users_id: i32)
    ensures
        owned_count(table.push(row), users_id) == owned_count(table, users_id) + (if row.1 == users_id {
            1nat
        } else {
            0nat
        }),
{
    assert(table.push(row).drop_last() =~= table);
}

/// The lookup by name keeps exactly the rows that carry that name, so it
/// finds a row exactly when the name is stored.
pub proof fn lemma_find_by_domain_keeps(q: DomainQuery, table: Seq<DomainRow>, domain: Seq<char>)
    requires
        q.domain_eq matches Some(d) && d@ == domain,
        q.users_id_eq is None,
    ensures
        (exists|i: int| 0 <= i < table.len() && q.keeps(#[trigger] table[i])) <==> domain_stored(table, domain),
{
    if domain_stored(table, domain) {
        let i = choose|i: int| 0 <= i < table.len() && #[trigger] table[i].0 == Some(domain);
        assert(q.keeps(table[i]));
    }
}

/// The query of a user's domains counts exactly the rows that user owns.
pub proof fn lemma_domains_of_user_counts(q: DomainQuery, table: Seq<DomainRow>, users_id: i32)
    requires
        q.domain_eq is None,
        q.users_id_eq == Some(users_id),
    ensures
        count_kept(q, table) == owned_count(table, users_id),
    decreases table.len(),
{
    if table.len() > 0 {
        lemma_domains_of_user_counts(q, table.drop_last(), users_id);
    }
}

/// The query that looks a domain up by its name.
pub fn find_by_domain(domain: &str) -> (q: DomainQuery)
    ensures
        q.domain_eq matches Some(d) && d@ == domain@,
        q.users_id_eq is None,
{
    DomainQuery { domain_eq: Some(String::from_str(domain)), users_id_eq: None }
}

/// The query that selects the domains of one user; it is listed, and
/// counted against the limit.
pub fn domains_of_user(users_id: i32) -> (q: DomainQuery)
    ensures
        q.domain_eq is None,
        q.users_id_eq == Some(users_id),
{
    DomainQuery { domain_eq: None, users_id_eq: Some(users_id) }
}

/// Whether a user who owns `domain_count` domains is still under a limit of
/// `max_domain` (the limit is read as an unsigned 64-bit number, so a
/// negative limit wraps around to a very large one).
pub open spec fn under_limit(domain_count: u64, max_domain: i32) -> bool {
    domain_count < max_domain as u64
}

/// Whether a user who owns `domain_count` domains may still add one under a
/// limit of `max_domain`.
pub fn check_max_domain_by_user(domain_count: u64, max_domain: i32) -> (has_room: bool)
    ensures
        has_room == under_limit(domain_count, max_domain),
{
    domain_count < max_domain as u64
}

/// For a limit that is not negative, a user is under it exactly when the
/// number of domains they own is smaller than the limit.
pub proof fn lemma_under_limit_counts(domain_count: u64, max_domain: i32)
    requires
        max_domain >= 0,
    ensures
        under_limit(domain_count, max_domain) <==> domain_count < max_domain,
{
}

/// A negative limit wraps around: it allows every count below
/// 2^64 plus the limit.
pub proof fn lemma_under_negative_limit(domain_count: u64, max_domain: i32)
    requires
        max_domain < 0,
    ensures
        under_limit(domain_count, max_domain) <==> domain_count < max_domain + 0x1_0000_0000_0000_0000,
{
    assert(max_domain < 0 ==> (max_domain as u64) as int == max_domain + 0x1_0000_0000_0000_0000)
        by (bit_vector);
}

/// A user who is under the limit stays under it with fewer domains.
pub proof fn lemma_under_limit_monotonic(fewer: u64, more: u64, max_domain: i32)
    requires
        fewer <= more,
        under_limit(more, max_domain),
    ensures
        under_limit(fewer, max_domain),
{
}

} // verus!
