//! Shortlinks: short-code generation, the steps of creating a shortlink,
//! editing one, listing them, and their routes.

use vstd::prelude::*;
use crate::http::{message_reply, reply_format_for, resource_routes, resource_table, Reply, RespondTo, Routes};
use crate::models::FieldValue;
use crate::models::shortlinks::{get_all_shortlinks, ShortlinkQuery, ShortlinkRecord};
use crate::rng::{choose_byte, thread_rng};
use crate::text::{bytes_as_chars, clone_text, string_from_bytes};

verus! {

/// The bytes a short code is drawn from: the ASCII codes of the capital
/// letters `A` to `Z`, then of the digits `0` to `9`.
pub const CHARSET: [u8; 36] = [
    65, 66, 67, 68, 69, 70, 71, 72, 73, 74, 75, 76, 77,
    78, 79, 80, 81, 82, 83, 84, 85, 86, 87, 88, 89, 90,
    48, 49, 50, 51, 52, 53, 54, 55, 56, 57,
];

/// The number of characters in a generated short code.
pub const SHORTLINK_LEN: usize = 6;

/// The characters a short code is made of.
pub open spec fn code_chars() -> Seq<char> {
    bytes_as_chars(CHARSET@)
}

/// A short code: `SHORTLINK_LEN` characters, each taken from `CHARSET`.
pub open spec fn is_short_code(code: Seq<char>) -> bool {
    &&& code.len() == SHORTLINK_LEN
    &&& forall|i: int| 0 <= i < code.len() ==> code_chars().contains(#[trigger] code[i])
}

/// A capital Latin letter or a decimal digit.
pub open spec fn is_capital_or_digit(c: char) -> bool {
    ('A' <= c && c <= 'Z') || ('0' <= c && c <= '9')
}

/// The characters of a short code are exactly the capital Latin letters and
/// the decimal digits.
pub proof fn lemma_code_chars_are_capitals_and_digits(c: char)
    ensures
        code_chars().contains(c) <==> is_capital_or_digit(c),
{
    assert forall|i: int| 0 <= i < CHARSET@.len() implies (65 <= #[trigger] CHARSET@[i] <= 90 || 48
        <= CHARSET@[i] <= 57) by {}
    if code_chars().contains(c) {
        let i = choose|i: int| 0 <= i < code_chars().len() && code_chars()[i] == c;
        assert(CHARSET@[i] == c as u32);
    }
    if is_capital_or_digit(c) {
        let i: int = if c <= '9' {
            c as int - 22
        } else {
            c as int - 65
        };
        assert(code_chars()[i] == c);
    }
}

/// Draws a random short code: each character is picked at random from
/// `CHARSET`.
pub fn generate_shortlink() -> (code: String)
    ensures
        is_short_code(code@),
        code@.len() == 6,
        forall|i: int|
            0 <= i < code@.len() ==> ('A' <= #[trigger] code@[i] && code@[i] <= 'Z') || ('0' <= code@[i]
                && code@[i] <= '9'),
{
    let mut rng = thread_rng();
    let mut picked: Vec<u8> = Vec::new();
    for k in 0..SHORTLINK_LEN
        invariant
            picked@.len() == k,
            forall|j: int| 0 <= j < picked@.len() ==> CHARSET@.contains(#[trigger] picked@[j]),
    {
        match choose_byte(&CHARSET, &mut rng) {
            Some(b) => picked.push(*b),
            None => {},
        }
    }
    let code = string_from_bytes(&picked);
    assert forall|i: int| 0 <= i < code@.len() implies code_chars().contains(#[trigger] code@[i]) by {
        let j = choose|j: int| 0 <= j < CHARSET@.len() && CHARSET@[j] == picked@[i];
        assert(code_chars()[j] == code@[i]);
        lemma_code_chars_are_capitals_and_digits(code@[i]);
    }
    code
}

/// The fields of a shortlink that a client sends.
#[derive(PartialEq, Eq, Clone, Debug)]
pub struct Params {
    pub shortlink: Option<String>,
    pub url: Option<String>,
    pub clicks: Option<i32>,
}

impl Params {
    /// `item` with the client's short code, URL and click count written
    /// into it; its other columns as they were.
    pub open spec fn applied_to(self, item: ShortlinkRecord) -> ShortlinkRecord {
        ShortlinkRecord {
            shortlink: FieldValue::Assign(self.shortlink),
            url: FieldValue::Assign(self.url),
            clicks: FieldValue::Assign(self.clicks),
            ..item
        }
    }

    /// Writes the client's short code, URL and click count into `item`.
    pub fn update(&self, item: &mut ShortlinkRecord)
        ensures
            *final(item) == self.applied_to(*old(item)),
            final(item).shortlink == FieldValue::Assign(self.shortlink),
            final(item).url == FieldValue::Assign(self.url),
            final(item).clicks == FieldValue::Assign(self.clicks),
            final(item).id == old(item).id,
            final(item).users_id == old(item).users_id,
            final(item).domain_id == old(item).domain_id,
            final(item).status_public == old(item).status_public,
    {
        item.shortlink = FieldValue::Assign(clone_text(&self.shortlink));
        item.url = FieldValue::Assign(clone_text(&self.url));
        item.clicks = FieldValue::Assign(self.clicks);
    }
}

/// Editing a shortlink stores the client's short code, URL and click count,
/// whatever the record held before (a lower click count included), and
/// keeps its id, owner, domain and visibility.
pub proof fn lemma_update_writes_client_fields(params: Params, item: ShortlinkRecord)
    ensures
        params.applied_to(item).shortlink == FieldValue::Assign(params.shortlink),
        params.applied_to(item).url == FieldValue::Assign(params.url),
        params.applied_to(item).clicks == FieldValue::Assign(params.clicks),
        params.applied_to(item).id == item.id,
        params.applied_to(item).users_id == item.users_id,
        params.applied_to(item).domain_id == item.domain_id,
        params.applied_to(item).status_public == item.status_public,
{
}

/// Writing a client's fields twice leaves the record as writing them once.
pub proof fn lemma_update_idempotent(params: Params, item: ShortlinkRecord)
    ensures
        params.applied_to(params.applied_to(item)) == params.applied_to(item),
{
}

/// Writing a client's fields leaves the record's id, owner, domain and
/// visibility as they were.
pub proof fn lemma_update_keeps_other_columns(params: Params, item: ShortlinkRecord)
    ensures
        params.applied_to(item).id == item.id,
        params.applied_to(item).users_id == item.users_id,
        params.applied_to(item).domain_id == item.domain_id,
        params.applied_to(item).status_public == item.status_public,
{
}

/// Why a request to create a shortlink is turned down.
#[derive(PartialEq, Eq, Structural, Clone, Copy, Debug)]
pub enum AddRefusal {
    UrlRequired,
    ShortlinkRequired,
    ShortlinkExists,
}

impl AddRefusal {
    /// The message a turned-down client receives.
    pub open spec fn text(self) -> Seq<char> {
        match self {
            AddRefusal::UrlRequired => "URL is required"@,
            AddRefusal::ShortlinkRequired => "Shortlink is required"@,
            AddRefusal::ShortlinkExists => "Shortlink already exists"@,
        }
    }

    /// The message a turned-down client receives.
    pub fn message(&self) -> (m: String)
        ensures
            m@ == self.text(),
    {
        match self {
            AddRefusal::UrlRequired => String::from_str("URL is required"),
            AddRefusal::ShortlinkRequired => String::from_str("Shortlink is required"),
            AddRefusal::ShortlinkExists => String::from_str("Shortlink already exists"),
        }
    }
}

/// The reply to a client whose request to create a shortlink was turned
/// down.
pub fn refusal_reply(respond_to: &RespondTo, refusal: AddRefusal) -> (reply: Reply)
    ensures
        reply.format == reply_format_for(*respond_to),
        reply.text@ == refusal.text(),
{
    message_reply(respond_to, refusal.message())
}

/// A request to create a shortlink that waits for the answer to one
/// question: is a shortlink with the short code `code` already stored?
#[derive(PartialEq, Eq, Clone, Debug)]
pub struct PendingAdd {
    pub params: Params,
    pub record: ShortlinkRecord,
    pub code: String,
}

/// What comes next in creating a shortlink.
#[derive(PartialEq, Eq, Clone, Debug)]
pub enum AddStep {
    /// Turn the request down with this reason.
    Refuse(AddRefusal),
    /// Look the pending code up, then go on with `finish_add`.
    LookUp(PendingAdd),
    /// Store this record and answer with it.
    Insert(ShortlinkRecord),
}

/// The record a new shortlink starts from: its URL, click count and owner.
pub open spec fn initial_record(params: Params, users_id: i32) -> ShortlinkRecord {
    ShortlinkRecord {
        url: FieldValue::Assign(params.url),
        clicks: FieldValue::Assign(params.clicks),
        users_id: FieldValue::Assign(users_id),
        ..ShortlinkRecord::spec_unset()
    }
}

/// The first step of creating a shortlink for user `users_id`, once `code`
/// has been drawn.
pub open spec fn add_plan(params: Params, users_id: i32, code: String) -> AddStep {
    if params.url is None {
        AddStep::Refuse(AddRefusal::UrlRequired)
    } else if params.shortlink is None {
        AddStep::Refuse(AddRefusal::ShortlinkRequired)
    } else {
        AddStep::LookUp(PendingAdd { params, record: initial_record(params, users_id), code })
    }
}

/// The last step of creating a shortlink, once it is known whether the
/// pending code is already stored.
pub open spec fn add_resolution(pending: PendingAdd, taken: bool) -> AddStep {
    if taken {
        AddStep::Refuse(AddRefusal::ShortlinkExists)
    } else {
        AddStep::Insert(pending.params.applied_to(pending.record))
    }
}

/// The first step of creating a shortlink for user `users_id`, with `code`
/// as the drawn short code.
pub fn plan_add(params: Params, users_id: i32, code: String) -> (step: AddStep)
    ensures
        step == add_plan(params, users_id, code),
        params.url is None ==> step == AddStep::Refuse(AddRefusal::UrlRequired),
        params.url is Some && params.shortlink is None ==> step == AddStep::Refuse(
            AddRefusal::ShortlinkRequired,
        ),
        params.url is Some && params.shortlink is Some ==> (step matches AddStep::LookUp(p) && p.params
            == params && p.code == code && p.record.users_id == FieldValue::Assign(users_id)
            && p.record.id == FieldValue::<i32>::Unset && p.record.domain_id
            == FieldValue::<i32>::Unset && p.record.status_public
            == FieldValue::<Option<String>>::Unset),
{
    if params.url.is_none() {
        return AddStep::Refuse(AddRefusal::UrlRequired);
    }
    let record = ShortlinkRecord {
        url: FieldValue::Assign(clone_text(&params.url)),
        clicks: FieldValue::Assign(params.clicks),
        users_id: FieldValue::Assign(users_id),
        ..ShortlinkRecord::default()
    };
    if params.shortlink.is_none() {
        return AddStep::Refuse(AddRefusal::ShortlinkRequired);
    }
    AddStep::LookUp(PendingAdd { params, record, code })
}

/// The first step of creating a shortlink for user `users_id`: a request
/// without a URL is turned down; otherwise a short code is drawn, a
/// request without a short code is turned down, and any other goes on to
/// look the drawn code up.
pub fn add(params: Params, users_id: i32) -> (step: AddStep)
    ensures
        params.url is None ==> step == AddStep::Refuse(AddRefusal::UrlRequired),
        params.url is Some && params.shortlink is None ==> step == AddStep::Refuse(
            AddRefusal::ShortlinkRequired,
        ),
        params.url is Some && params.shortlink is Some ==> (step matches AddStep::LookUp(p) && p.params
            == params && p.record == initial_record(params, users_id) && is_short_code(p.code@)),
        step matches AddStep::LookUp(p) ==> (p.record.url == FieldValue::Assign(params.url)
            && p.record.clicks == FieldValue::Assign(params.clicks) && p.record.users_id
            == FieldValue::Assign(users_id) && p.record.id == FieldValue::<i32>::Unset
            && p.record.shortlink == FieldValue::<Option<String>>::Unset && p.record.domain_id
            == FieldValue::<i32>::Unset && p.record.status_public
            == FieldValue::<Option<String>>::Unset),
{
    if params.url.is_none() {
        return AddStep::Refuse(AddRefusal::UrlRequired);
    }
    let code = generate_shortlink();
    plan_add(params, users_id, code)
}

/// The last step of creating a shortlink: turned down when a shortlink with
/// the drawn code is already stored (`taken`), otherwise the record to
/// insert.
pub fn finish_add(pending: PendingAdd, taken: bool) -> (step: AddStep)
    ensures
        step == add_resolution(pending, taken),
        taken ==> step == AddStep::Refuse(AddRefusal::ShortlinkExists),
        !taken ==> (step matches AddStep::Insert(r) && r.shortlink == FieldValue::Assign(
            pending.params.shortlink) && r.url == FieldValue::Assign(pending.params.url) && r.clicks
            == FieldValue::Assign(pending.params.clicks) && r.users_id == pending.record.users_id
            && r.id == pending.record.id && r.domain_id == pending.record.domain_id
            && r.status_public == pending.record.status_public),
{
    if taken {
        return AddStep::Refuse(AddRefusal::ShortlinkExists);
    }
    let PendingAdd { params, mut record, code: _ } = pending;
    record.shortlink = FieldValue::Assign(clone_text(&params.shortlink));
    params.update(&mut record);
    AddStep::Insert(record)
}

/// The record a successful request stores: the client's short code, URL and
/// click count, owned by the requesting user, other columns left to the
/// database.
pub open spec fn inserted_record(params: Params, users_id: i32) -> ShortlinkRecord {
    ShortlinkRecord {
        shortlink: FieldValue::Assign(params.shortlink),
        url: FieldValue::Assign(params.url),
        clicks: FieldValue::Assign(params.clicks),
        users_id: FieldValue::Assign(users_id),
        ..ShortlinkRecord::spec_unset()
    }
}

/// How a request to create a shortlink ends, given the drawn code and
/// whether that code was found stored.
pub open spec fn add_outcome(params: Params, users_id: i32, code: String, taken: bool) -> AddStep {
    match add_plan(params, users_id, code) {
        AddStep::LookUp(pending) => add_resolution(pending, taken),
        step => step,
    }
}

/// However a request to create a shortlink ends, a stored record holds the
/// client's short code (never the drawn code), URL and click count, belongs
/// to the requesting user and leaves its id, domain and visibility to the
/// database; it is stored exactly when the request has a URL and a short
/// code and the drawn code is not taken.
pub proof fn lemma_add_outcome_fields(params: Params, users_id: i32, code: String, taken: bool)
    ensures
        add_outcome(params, users_id, code, taken) matches AddStep::Insert(r) ==> (r.shortlink
            == FieldValue::Assign(params.shortlink) && r.url == FieldValue::Assign(params.url)
            && r.clicks == FieldValue::Assign(params.clicks) && r.users_id == FieldValue::Assign(
            users_id) && r.id == FieldValue::<i32>::Unset && r.domain_id == FieldValue::<i32>::Unset
            && r.status_public == FieldValue::<Option<String>>::Unset),
        add_outcome(params, users_id, code, taken) is Insert <==> (params.url is Some
            && params.shortlink is Some && !taken),
        add_outcome(params, users_id, code, taken) !is LookUp,
        add_plan(params, users_id, code) matches AddStep::LookUp(p) ==> p.code == code,
{
}

/// The three reasons for turning a shortlink down read differently.
pub proof fn lemma_refusal_texts_differ()
    ensures
        AddRefusal::UrlRequired.text() == "URL is required"@,
        AddRefusal::ShortlinkRequired.text() == "Shortlink is required"@,
        AddRefusal::ShortlinkExists.text() == "Shortlink already exists"@,
        AddRefusal::UrlRequired.text() != AddRefusal::ShortlinkRequired.text(),
        AddRefusal::UrlRequired.text() != AddRefusal::ShortlinkExists.text(),
        AddRefusal::ShortlinkRequired.text() != AddRefusal::ShortlinkExists.text(),
{
    reveal_strlit("URL is required");
    reveal_strlit("Shortlink is required");
    reveal_strlit("Shortlink already exists");
    assert("URL is required"@.len() != "Shortlink is required"@.len());
    assert("URL is required"@.len() != "Shortlink already exists"@.len());
    assert("Shortlink is required"@.len() != "Shortlink already exists"@.len());
}

/// A request to create a shortlink is turned down for a missing URL, else
/// for a missing short code, else when the drawn code is already stored;
/// otherwise it stores the client's short code (never the drawn one), URL
/// and click count under the requesting user, whatever code was drawn.
pub proof fn lemma_add_outcome(params: Params, users_id: i32, code: String, taken: bool)
    ensures
        add_outcome(params, users_id, code, taken) == (if params.url is None {
            AddStep::Refuse(AddRefusal::UrlRequired)
        } else if params.shortlink is None {
            AddStep::Refuse(AddRefusal::ShortlinkRequired)
        } else if taken {
            AddStep::Refuse(AddRefusal::ShortlinkExists)
        } else {
            AddStep::Insert(inserted_record(params, users_id))
        }),
{
}

/// The number of shortlinks a listing returns when the client names none.
pub const DEFAULT_LIMIT: i32 = 10;

/// The number of shortlinks a listing skips when the client names none.
pub const DEFAULT_OFFSET: i32 = 0;

/// What a client may ask of a shortlink listing.
#[derive(PartialEq, Eq, Clone, Debug)]
pub struct ListParams {
    pub limit: Option<i32>,
    pub offset: Option<i32>,
    pub order_by: Option<String>,
    pub search_query: Option<String>,
    pub filter_by_clicks: Option<i32>,
    pub users_id: Option<i32>,
}

impl ListParams {
    /// The listing query for these parameters: `get_all_shortlinks` with
    /// a limit of `DEFAULT_LIMIT` and an offset of `DEFAULT_OFFSET` where
    /// the client names none.
    pub fn query(&self) -> (q: ShortlinkQuery)
        ensures
            q.owner == self.users_id,
            q.limit == Some(self.limit.unwrap_or(DEFAULT_LIMIT) as u64),
            q.offset == Some(self.offset.unwrap_or(DEFAULT_OFFSET) as u64),
            self.limit is None ==> q.limit == Some(10u64),
            self.offset is None ==> q.offset == Some(0u64),
            (self.limit matches Some(l) && l >= 0) ==> q.limit == Some(self.limit->Some_0 as u64),
            (self.offset matches Some(o) && o >= 0) ==> q.offset == Some(self.offset->Some_0 as u64),
            q.order_by_shortlink == self.order_by is Some,
            q.shortlink_eq is None,
            self.search_query is None ==> q.shortlink_contains is None,
            self.search_query matches Some(s) ==> (q.shortlink_contains matches Some(t) && t@
                == crate::text::lowercase_of(s@)),
            q.users_id_eq == (if self.filter_by_clicks is Some {
                Some(self.users_id)
            } else {
                None::<Option<i32>>
            }),
            q.clicks_eq == self.filter_by_clicks,
    {
        let limit = match self.limit {
            Some(l) => l,
            None => DEFAULT_LIMIT,
        };
        let offset = match self.offset {
            Some(o) => o,
            None => DEFAULT_OFFSET,
        };
        let order_by: Option<&str> = match &self.order_by {
            Some(o) => Some(o.as_str()),
            None => None,
        };
        let search_query: Option<&str> = match &self.search_query {
            Some(s) => Some(s.as_str()),
            None => None,
        };
        get_all_shortlinks(limit, offset, order_by, search_query, self.filter_by_clicks, self.users_id)
    }
}

/// The body of a listing's answer: the one shortlink found, or `null`.
#[derive(PartialEq, Eq, Clone, Debug)]
pub enum ListReply<T> {
    Found(T),
    Null,
}

/// The answer to a listing, given what the query returned: the shortlink
/// it found, and `null` when it found none or failed.
pub fn list_reply<T, E>(outcome: Result<Option<T>, E>) -> (reply: ListReply<T>)
    ensures
        outcome matches Ok(Some(t)) ==> reply == ListReply::Found(t),
        !(outcome is Ok && outcome->Ok_0 is Some) ==> reply == ListReply::<T>::Null,
{
    match outcome {
        Ok(Some(t)) => ListReply::Found(t),
        _ => ListReply::Null,
    }
}

/// The routes of the shortlink API, under `api/shortlinks/`.
pub fn routes() -> (r: Routes)
    ensures
        r@ == resource_table("api/shortlinks/"@),
{
    resource_routes("api/shortlinks/")
}

} // verus!
