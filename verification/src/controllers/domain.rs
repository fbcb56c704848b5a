//! Domains: the steps of registering a domain, editing one, and their
//! routes.

use vstd::prelude::*;
use crate::http::{message_reply, reply_format_for, resource_routes, resource_table, Reply, RespondTo, Routes};
use crate::models::FieldValue;
use crate::models::domains::{
    check_max_domain_by_user, domain_stored, lemma_owned_count_bounded, lemma_owned_count_push,
    lemma_under_limit_counts, names_unique, owned_count, under_limit, DomainRecord, DomainRow,
};
use crate::text::clone_text;

verus! {

/// The number of domains one user may register.
pub const MAX_DOMAINS_PER_USER: i32 = 5;

/// The fields of a domain that a client sends.
#[derive(PartialEq, Eq, Clone, Debug)]
pub struct Params {
    pub domain: Option<String>,
    pub status: Option<String>,
}

impl Params {
    /// `item` with the client's domain name and status written into it;
    /// its other columns as they were.
    pub open spec fn applied_to(self, item: DomainRecord) -> DomainRecord {
        DomainRecord {
            domain: FieldValue::Assign(self.domain),
            status: FieldValue::Assign(self.status),
            ..item
        }
    }

    /// Writes the client's domain name and status into `item`.
    pub fn update(&self, item: &mut DomainRecord)
        ensures
            *final(item) == self.applied_to(*old(item)),
            final(item).domain == FieldValue::Assign(self.domain),
            final(item).status == FieldValue::Assign(self.status),
            final(item).id == old(item).id,
            final(item).users_id == old(item).users_id,
    {
        item.domain = FieldValue::Assign(clone_text(&self.domain));
        item.status = FieldValue::Assign(clone_text(&self.status));
    }
}

/// Editing a domain stores the client's domain name and status, whatever
/// the record held before, and keeps its id and owner.
pub proof fn lemma_update_writes_client_fields(params: Params, item: DomainRecord)
    ensures
        params.applied_to(item).domain == FieldValue::Assign(params.domain),
        params.applied_to(item).status == FieldValue::Assign(params.status),
        params.applied_to(item).id == item.id,
        params.applied_to(item).users_id == item.users_id,
{
}

/// Writing a client's fields twice leaves the record as writing them once.
pub proof fn lemma_update_idempotent(params: Params, item: DomainRecord)
    ensures
        params.applied_to(params.applied_to(item)) == params.applied_to(item),
{
}

/// Writing a client's fields leaves the record's id and owner as they were.
pub proof fn lemma_update_keeps_other_columns(params: Params, item: DomainRecord)
    ensures
        params.applied_to(item).id == item.id,
        params.applied_to(item).users_id == item.users_id,
{
}

/// Why a request to register a domain is turned down.
#[derive(PartialEq, Eq, Structural, Clone, Copy, Debug)]
pub enum AddRefusal {
    DomainExists,
    MaxDomainReached,
}

impl AddRefusal {
    /// The message a turned-down client receives.
    pub open spec fn text(self) -> Seq<char> {
        match self {
            AddRefusal::DomainExists => "Domain already exists"@,
            AddRefusal::MaxDomainReached => "Max domain reached"@,
        }
    }

    /// The message a turned-down client receives.
    pub fn message(&self) -> (m: String)
        ensures
            m@ == self.text(),
    {
        match self {
            AddRefusal::DomainExists => String::from_str("Domain already exists"),
            AddRefusal::MaxDomainReached => String::from_str("Max domain reached"),
        }
    }
}

/// The reply to a client whose request to register a domain was turned
/// down.
pub fn refusal_reply(respond_to: &RespondTo, refusal: AddRefusal) -> (reply: Reply)
    ensures
        reply.format == reply_format_for(*respond_to),
        reply.text@ == refusal.text(),
{
    message_reply(respond_to, refusal.message())
}

/// A request to register the domain `domain` that waits for two answers:
/// is that domain already stored, and how many domains does the user own?
#[derive(PartialEq, Eq, Clone, Debug)]
pub struct PendingAdd {
    pub params: Params,
    pub users_id: i32,
    pub domain: String,
}

/// What comes next in registering a domain.
#[derive(PartialEq, Eq, Clone, Debug)]
pub enum AddStep {
    /// Turn the request down with this reason.
    Refuse(AddRefusal),
    /// Look the pending domain up and count the user's domains, then go on
    /// with `finish_add`.
    LookUp(PendingAdd),
    /// Store this record and answer with it.
    Insert(DomainRecord),
}

/// The record a successful request stores: the client's domain name and
/// status, owned by the requesting user, other columns left to the database.
pub open spec fn inserted_record(params: Params, users_id: i32) -> DomainRecord {
    DomainRecord {
        domain: FieldValue::Assign(params.domain),
        status: FieldValue::Assign(params.status),
        users_id: FieldValue::Assign(users_id),
        ..DomainRecord::spec_unset()
    }
}

/// The record to insert for `params` and `users_id`.
fn new_record(params: &Params, users_id: i32) -> (record: DomainRecord)
    ensures
        record == inserted_record(*params, users_id),
{
    let mut record = DomainRecord {
        domain: FieldValue::Assign(clone_text(&params.domain)),
        status: FieldValue::Assign(clone_text(&params.status)),
        users_id: FieldValue::Assign(users_id),
        ..DomainRecord::default()
    };
    params.update(&mut record);
    record
}

/// The first step of registering a domain for user `users_id`.
pub open spec fn add_plan(params: Params, users_id: i32) -> AddStep {
    match params.domain {
        Some(domain) => AddStep::LookUp(PendingAdd { params, users_id, domain }),
        None => AddStep::Insert(inserted_record(params, users_id)),
    }
}

/// The last step of registering a domain, once it is known whether the
/// domain is already stored (`existing`) and how many domains the user owns.
pub open spec fn add_resolution(pending: PendingAdd, existing: bool, domain_count: u64) -> AddStep {
    if existing {
        AddStep::Refuse(AddRefusal::DomainExists)
    } else if !under_limit(domain_count, MAX_DOMAINS_PER_USER) {
        AddStep::Refuse(AddRefusal::MaxDomainReached)
    } else {
        AddStep::Insert(inserted_record(pending.params, pending.users_id))
    }
}

/// The first step of registering a domain for user `users_id`: a request
/// that names a domain goes on to look it up; one that names none is stored
/// at once.
pub fn add(params: Params, users_id: i32) -> (step: AddStep)
    ensures
        step == add_plan(params, users_id),
        params.domain matches Some(d) ==> (step matches AddStep::LookUp(p) && p.domain@ == d@
            && p.params == params && p.users_id == users_id),
        params.domain is None ==> (step matches AddStep::Insert(r) && r.domain == FieldValue::Assign(
            params.domain) && r.status == FieldValue::Assign(params.status) && r.users_id
            == FieldValue::Assign(users_id) && r.id == FieldValue::<i32>::Unset),
{
    match &params.domain {
        Some(d) => {
            let domain = d.clone();
            AddStep::LookUp(PendingAdd { params, users_id, domain })
        },
        None => AddStep::Insert(new_record(&params, users_id)),
    }
}

/// The last step of registering a domain: turned down when the domain is
/// already stored, else when the user has reached `MAX_DOMAINS_PER_USER`,
/// otherwise the record to insert.
pub fn finish_add(pending: PendingAdd, existing: bool, domain_count: u64) -> (step: AddStep)
    ensures
        step == add_resolution(pending, existing, domain_count),
        existing ==> step == AddStep::Refuse(AddRefusal::DomainExists),
        !existing && domain_count >= 5 ==> step == AddStep::Refuse(AddRefusal::MaxDomainReached),
        !existing && domain_count < 5 ==> (step matches AddStep::Insert(r) && r.domain
            == FieldValue::Assign(pending.params.domain) && r.status == FieldValue::Assign(
            pending.params.status) && r.users_id == FieldValue::Assign(pending.users_id) && r.id
            == FieldValue::<i32>::Unset),
{
    let has_room = check_max_domain_by_user(domain_count, MAX_DOMAINS_PER_USER);
    if existing {
        AddStep::Refuse(AddRefusal::DomainExists)
    } else if !has_room {
        AddStep::Refuse(AddRefusal::MaxDomainReached)
    } else {
        AddStep::Insert(new_record(&pending.params, pending.users_id))
    }
}

/// How a request to register a domain ends, given whether the domain was
/// found stored and how many domains the user owns.
pub open spec fn add_outcome(params: Params, users_id: i32, existing: bool, domain_count: u64) -> AddStep {
    match add_plan(params, users_id) {
        AddStep::LookUp(pending) => add_resolution(pending, existing, domain_count),
        step => step,
    }
}

/// A request that names no domain is stored at once. One that names a
/// domain is turned down when the domain is already stored, else when the
/// user already owns `MAX_DOMAINS_PER_USER` domains or more; otherwise it
/// stores the client's domain name and status under the requesting user.
pub proof fn lemma_add_outcome(params: Params, users_id: i32, existing: bool, domain_count: u64)
    ensures
        add_outcome(params, users_id, existing, domain_count) == (if params.domain is None {
            AddStep::Insert(inserted_record(params, users_id))
        } else if existing {
            AddStep::Refuse(AddRefusal::DomainExists)
        } else if domain_count >= MAX_DOMAINS_PER_USER {
            AddStep::Refuse(AddRefusal::MaxDomainReached)
        } else {
            AddStep::Insert(inserted_record(params, users_id))
        }),
{
}

/// No user of `table` owns more than `MAX_DOMAINS_PER_USER` rows.
pub open spec fn within_limit(table: Seq<DomainRow>) -> bool {
    forall|u: i32| #[trigger] owned_count(table, u) <= MAX_DOMAINS_PER_USER
}

/// The domain name a client sent, as a character sequence.
pub open spec fn name_view(domain: Option<String>) -> Option<Seq<char>> {
    match domain {
        Some(d) => Some(d@),
        None => None,
    }
}

/// The row that registering `params` for `users_id` adds to the table.
pub open spec fn new_row(params: Params, users_id: i32) -> DomainRow {
    (name_view(params.domain), users_id)
}

/// What the name lookup answers on `table` for the name a client sent.
pub open spec fn name_taken(table: Seq<DomainRow>, domain: Option<String>) -> bool {
    match domain {
        Some(d) => domain_stored(table, d@),
        None => false,
    }
}

/// When the lookups answer from `table` itself, a registration keeps the
/// table's rules: no two rows share a domain name, and, for a request that
/// names a domain, no user owns more than `MAX_DOMAINS_PER_USER` domains.
pub proof fn lemma_add_keeps_domains_valid(table: Seq<DomainRow>, params: Params, users_id: i32)
    requires
        names_unique(table),
        params.domain is Some ==> within_limit(table),
        table.len() <= u64::MAX,
    ensures
        add_outcome(
            params,
            users_id,
            name_taken(table, params.domain),
            owned_count(table, users_id) as u64,
        ) is Insert ==> {
            &&& names_unique(table.push(new_row(params, users_id)))
            &&& params.domain is Some ==> within_limit(table.push(new_row(params, users_id)))
        },
{
    let count = owned_count(table, users_id);
    lemma_owned_count_bounded(table, users_id);
    lemma_under_limit_counts(count as u64, MAX_DOMAINS_PER_USER);
    let outcome = add_outcome(params, users_id, name_taken(table, params.domain), count as u64);
    if outcome is Insert {
        let row = new_row(params, users_id);
        let grown = table.push(row);
        assert forall|i: int, j: int|
            0 <= i < j < grown.len() && (#[trigger] grown[i]).0 is Some implies grown[i].0 != (
            #[trigger] grown[j]).0 by {
            if j == table.len() {
                assert(grown[i] == table[i]);
                if params.domain is Some {
                    assert(!domain_stored(table, params.domain->Some_0@));
                }
            } else {
                assert(grown[i] == table[i] && grown[j] == table[j]);
            }
        }
        if params.domain is Some {
            assert forall|u: i32| #[trigger] owned_count(grown, u) <= MAX_DOMAINS_PER_USER by {
                lemma_owned_count_push(table, row, u);
                assert(owned_count(table, u) <= MAX_DOMAINS_PER_USER);
            }
        }
    }
}

/// A request that names a domain goes on to look up exactly that name, for
/// the requesting user, with the request itself kept for the last step.
pub proof fn lemma_add_looks_up_requested_domain(params: Params, users_id: i32)
    requires
        params.domain is Some,
    ensures
        add_plan(params, users_id) matches AddStep::LookUp(p) && p.domain == params.domain->Some_0
            && p.domain@ == params.domain->Some_0@ && p.params == params && p.users_id == users_id,
{
}

/// However a registration ends, a stored record holds the client's domain
/// name and status, belongs to the requesting user and leaves its id to the
/// database; a turned-down request names its reason.
pub proof fn lemma_add_outcome_fields(params: Params, users_id: i32, existing: bool, domain_count: u64)
    ensures
        add_outcome(params, users_id, existing, domain_count) matches AddStep::Insert(r) ==> (r.domain
            == FieldValue::Assign(params.domain) && r.status == FieldValue::Assign(params.status)
            && r.users_id == FieldValue::Assign(users_id) && r.id == FieldValue::<i32>::Unset),
        add_outcome(params, users_id, existing, domain_count) is Insert <==> (params.domain is None
            || (!existing && domain_count < 5)),
        (params.domain is Some && existing) ==> add_outcome(params, users_id, existing, domain_count)
            == AddStep::Refuse(AddRefusal::DomainExists),
        (params.domain is Some && !existing && domain_count >= 5) ==> add_outcome(
            params,
            users_id,
            existing,
            domain_count,
        ) == AddStep::Refuse(AddRefusal::MaxDomainReached),
        add_outcome(params, users_id, existing, domain_count) !is LookUp,
{
}

/// The two reasons for turning a registration down read differently.
pub proof fn lemma_refusal_texts_differ()
    ensures
        AddRefusal::DomainExists.text() != AddRefusal::MaxDomainReached.text(),
        AddRefusal::DomainExists.text() == "Domain already exists"@,
        AddRefusal::MaxDomainReached.text() == "Max domain reached"@,
{
    reveal_strlit("Domain already exists");
    reveal_strlit("Max domain reached");
    assert("Domain already exists"@.len() != "Max domain reached"@.len());
}

/// The routes of the domain API, under `api/domains/`.
pub fn routes() -> (r: Routes)
    ensures
        r@ == resource_table("api/domains/"@),
{
    resource_routes("api/domains/")
}

} // verus!
