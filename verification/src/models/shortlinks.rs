//! The `shortlinks` table: its writable record and the queries on it.

use vstd::prelude::*;
use crate::models::FieldValue;
use crate::text::{lowercase_of, to_lowercase};

verus! {

/// A shortlink record as it is handed to the database for an insert or an
/// update, column by column.
#[derive(PartialEq, Eq, Clone, Debug)]
pub struct ShortlinkRecord {
    pub id: FieldValue<i32>,
    pub shortlink: FieldValue<Option<String>>,
    pub url: FieldValue<Option<String>>,
    pub clicks: FieldValue<Option<i32>>,
    pub users_id: FieldValue<i32>,
    pub domain_id: FieldValue<i32>,
    pub status_public: FieldValue<Option<String>>,
}

impl ShortlinkRecord {
    /// A record in which no column holds a value.
    pub open spec fn spec_unset() -> ShortlinkRecord {
        ShortlinkRecord {
            id: FieldValue::Unset,
            shortlink: FieldValue::Unset,
            url: FieldValue::Unset,
            clicks: FieldValue::Unset,
            users_id: FieldValue::Unset,
            domain_id: FieldValue::Unset,
            status_public: FieldValue::Unset,
        }
    }
}

impl Default for ShortlinkRecord {
    fn default() -> (r: ShortlinkRecord)
        ensures
            r == ShortlinkRecord::spec_unset(),
            r.id == FieldValue::<i32>::Unset,
            r.shortlink == FieldValue::<Option<String>>::Unset,
            r.url == FieldValue::<Option<String>>::Unset,
            r.clicks == FieldValue::<Option<i32>>::Unset,
            r.users_id == FieldValue::<i32>::Unset,
            r.domain_id == FieldValue::<i32>::Unset,
            r.status_public == FieldValue::<Option<String>>::Unset,
    {
        ShortlinkRecord {
            id: FieldValue::Unset,
            shortlink: FieldValue::Unset,
            url: FieldValue::Unset,
            clicks: FieldValue::Unset,
            users_id: FieldValue::Unset,
            domain_id: FieldValue::Unset,
            status_public: FieldValue::Unset,
        }
    }
}

/// A query on the `shortlinks` table that fetches at most one row. Every
/// filter that is present must hold of the row.
#[derive(PartialEq, Eq, Clone, Debug)]
pub struct ShortlinkQuery {
    /// Joins the owning user and keeps rows whose user has this id.
    pub owner: Option<i32>,
    pub limit: Option<u64>,
    pub offset: Option<u64>,
    /// Orders the rows by their short code, ascending.
    pub order_by_shortlink: bool,
    /// The short code equals this text.
    pub shortlink_eq: Option<String>,
    /// The short code contains this text.
    pub shortlink_contains: Option<String>,
    /// The `users_id` column equals this value (`None` compares with NULL).
    pub users_id_eq: Option<Option<i32>>,
    /// The click count equals this value.
    pub clicks_eq: Option<i32>,
}

/// A stored shortlink row, as far as the equality filters look at it: its
/// short code, its click count and the id of the user who owns it.
pub type ShortlinkRow = (Option<Seq<char>>, Option<i32>, i32);

impl ShortlinkQuery {
    /// Whether `row` passes every equality filter of the query: the owner,
    /// the short code, the `users_id` column (which never equals NULL) and
    /// the click count. The text search is left out: the database matches
    /// it as a `LIKE` pattern, in which `%` and `_` are wildcards and whose
    /// handling of letter case is the database's own.
    pub open spec fn keeps_by_equality(self, row: ShortlinkRow) -> bool {
        &&& (self.owner matches Some(u) ==> row.2 == u)
        &&& (self.shortlink_eq matches Some(s) ==> row.0 == Some(s@))
        &&& (self.users_id_eq matches Some(u) ==> (u matches Some(v) && row.2 == v))
        &&& (self.clicks_eq matches Some(c) ==> row.1 == Some(c))
    }
}

/// The lookup by short code keeps exactly the rows that carry that code.
pub proof fn lemma_find_by_shortlink_keeps(q: ShortlinkQuery, shortlink: Seq<char>, row: ShortlinkRow)
    requires
        q.shortlink_eq matches Some(s) && s@ == shortlink,
        q.owner is None,
        q.users_id_eq is None,
        q.clicks_eq is None,
    ensures
        q.keeps_by_equality(row) <==> row.0 == Some(shortlink),
{
}

/// A listing that filters on clicks without naming a user compares
/// `users_id` with NULL, so it keeps no row.
pub proof fn lemma_clicks_filter_without_user_keeps_nothing(q: ShortlinkQuery, row: ShortlinkRow)
    requires
        q.users_id_eq == Some(None::<i32>),
    ensures
        !q.keeps_by_equality(row),
{
}

/// The query that looks a shortlink up by its short code.
pub fn find_by_shortlink(shortlink: &str) -> (q: ShortlinkQuery)
    ensures
        q.shortlink_eq matches Some(s) && s@ == shortlink@,
        q.owner is None,
        q.limit is None,
        q.offset is None,
        !q.order_by_shortlink,
        q.shortlink_contains is None,
        q.users_id_eq is None,
        q.clicks_eq is None,
{
    ShortlinkQuery {
        owner: None,
        limit: None,
        offset: None,
        order_by_shortlink: false,
        shortlink_eq: Some(String::from_str(shortlink)),
        shortlink_contains: None,
        users_id_eq: None,
        clicks_eq: None,
    }
}

/// The listing query, given a search text that is already lowercased.
pub fn listing_query(
    limit: i32,
    offset: i32,
    ordered: bool,
    lowered_search: Option<String>,
    filter_by_clicks: Option<i32>,
    users_id: Option<i32>,
) -> (q: ShortlinkQuery)
    ensures
        q.owner == users_id,
        q.limit == Some(limit as u64),
        q.offset == Some(offset as u64),
        q.order_by_shortlink == ordered,
        q.shortlink_eq is None,
        q.shortlink_contains == lowered_search,
        q.users_id_eq == (if filter_by_clicks is Some { Some(users_id) } else { None::<Option<i32>> }),
        q.clicks_eq == filter_by_clicks,
{
    let users_id_eq = match filter_by_clicks {
        Some(_) => Some(users_id),
        None => None,
    };
    ShortlinkQuery {
        owner: users_id,
        limit: Some(limit as u64),
        offset: Some(offset as u64),
        order_by_shortlink: ordered,
        shortlink_eq: None,
        shortlink_contains: lowered_search,
        users_id_eq,
        clicks_eq: filter_by_clicks,
    }
}

/// The listing query: the shortlinks of `users_id` (all when absent), at
/// most `limit` rows after skipping `offset` (both read as unsigned
/// 64-bit numbers, so a negative value wraps around), ordered by short
/// code when `order_by` is given, whose short code contains the lowercased
/// `search_query`, and, when `filter_by_clicks` is given, whose click count
/// equals it and whose `users_id` column equals `users_id`.
pub fn get_all_shortlinks(
    limit: i32,
    offset: i32,
    order_by: Option<&str>,
    search_query: Option<&str>,
    filter_by_clicks: Option<i32>,
    users_id: Option<i32>,
) -> (q: ShortlinkQuery)
    ensures
        q.owner == users_id,
        q.limit == Some(limit as u64),
        q.offset == Some(offset as u64),
        q.order_by_shortlink == order_by is Some,
        q.shortlink_eq is None,
        search_query is None ==> q.shortlink_contains is None,
        search_query matches Some(s) ==> (q.shortlink_contains matches Some(t) && t@ == lowercase_of(s@)),
        q.users_id_eq == (if filter_by_clicks is Some { Some(users_id) } else { None::<Option<i32>> }),
        q.clicks_eq == filter_by_clicks,
{
    let lowered = match search_query {
        Some(s) => Some(to_lowercase(s)),
        None => None,
    };
    let ordered = match order_by {
        Some(_) => true,
        None => false,
    };
    listing_query(limit, offset, ordered, lowered, filter_by_clicks, users_id)
}

} // verus!
