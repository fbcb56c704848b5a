use shortlink::controllers::shortlinks::{
    add, finish_add, generate_shortlink, list_reply, plan_add, refusal_reply, routes, AddRefusal,
    AddStep, ListParams, ListReply, Params, PendingAdd, CHARSET, DEFAULT_LIMIT, SHORTLINK_LEN,
};
use shortlink::http::{Action, Method, ReplyFormat, RespondTo};
use shortlink::models::shortlinks::{find_by_shortlink, get_all_shortlinks, listing_query, ShortlinkRecord};
use shortlink::models::FieldValue;
use shortlink::text::{clone_text, string_from_bytes};

fn params(shortlink: Option<&str>, url: Option<&str>, clicks: Option<i32>) -> Params {
    Params {
        shortlink: shortlink.map(|s| s.to_string()),
        url: url.map(|s| s.to_string()),
        clicks,
    }
}

fn expected_insert(p: &Params, users_id: i32) -> ShortlinkRecord {
    ShortlinkRecord {
        id: FieldValue::Unset,
        shortlink: FieldValue::Assign(p.shortlink.clone()),
        url: FieldValue::Assign(p.url.clone()),
        clicks: FieldValue::Assign(p.clicks),
        users_id: FieldValue::Assign(users_id),
        domain_id: FieldValue::Unset,
        status_public: FieldValue::Unset,
    }
}

#[test]
fn generated_codes_are_six_capitals_or_digits() {
    for _ in 0..200 {
        let code = generate_shortlink();
        assert_eq!(code.chars().count(), SHORTLINK_LEN);
        assert!(code.chars().all(|c| c.is_ascii_uppercase() || c.is_ascii_digit()));
        assert!(code.bytes().all(|b| CHARSET.contains(&b)));
    }
}

#[test]
fn generated_codes_vary() {
    let first = generate_shortlink();
    let differs = (0..50).any(|_| generate_shortlink() != first);
    assert!(differs);
}

#[test]
fn charset_is_capitals_then_digits() {
    let text = string_from_bytes(&CHARSET);
    assert_eq!(text, "ABCDEFGHIJKLMNOPQRSTUVWXYZ0123456789");
}

#[test]
fn string_from_bytes_reads_each_byte() {
    assert_eq!(string_from_bytes(&[72, 105, 33]), "Hi!");
    assert_eq!(string_from_bytes(&[]), "");
}

#[test]
fn clone_text_copies() {
    assert_eq!(clone_text(&Some("x".to_string())), Some("x".to_string()));
    assert_eq!(clone_text(&None), None);
}

#[test]
fn add_without_url_is_refused() {
    let step = add(params(Some("abc"), None, Some(1)), 7);
    assert_eq!(step, AddStep::Refuse(AddRefusal::UrlRequired));
}

#[test]
fn add_without_shortlink_is_refused() {
    let step = add(params(None, Some("https://example.com"), None), 7);
    assert_eq!(step, AddStep::Refuse(AddRefusal::ShortlinkRequired));
}

#[test]
fn add_with_url_and_shortlink_looks_up_a_drawn_code() {
    let p = params(Some("mine"), Some("https://example.com"), Some(3));
    match add(p.clone(), 7) {
        AddStep::LookUp(pending) => {
            assert_eq!(pending.params, p);
            assert_eq!(pending.code.len(), SHORTLINK_LEN);
            assert_ne!(pending.code, "mine");
            assert_eq!(pending.record.url, FieldValue::Assign(Some("https://example.com".to_string())));
            assert_eq!(pending.record.clicks, FieldValue::Assign(Some(3)));
            assert_eq!(pending.record.users_id, FieldValue::Assign(7));
            assert_eq!(pending.record.shortlink, FieldValue::Unset);
        }
        other => panic!("unexpected step {:?}", other),
    }
}

#[test]
fn plan_add_with_given_code() {
    let p = params(Some("mine"), Some("u"), None);
    let step = plan_add(p.clone(), 1, "ABC123".to_string());
    match step {
        AddStep::LookUp(PendingAdd { params, code, .. }) => {
            assert_eq!(params, p);
            assert_eq!(code, "ABC123");
        }
        other => panic!("unexpected step {:?}", other),
    }
    assert_eq!(
        plan_add(params(None, None, None), 1, "ABC123".to_string()),
        AddStep::Refuse(AddRefusal::UrlRequired)
    );
    assert_eq!(
        plan_add(params(None, Some("u"), None), 1, "ABC123".to_string()),
        AddStep::Refuse(AddRefusal::ShortlinkRequired)
    );
}

#[test]
fn taken_code_is_refused() {
    let p = params(Some("mine"), Some("u"), None);
    let pending = match plan_add(p, 1, "ZZZZZZ".to_string()) {
        AddStep::LookUp(pending) => pending,
        other => panic!("unexpected step {:?}", other),
    };
    assert_eq!(finish_add(pending, true), AddStep::Refuse(AddRefusal::ShortlinkExists));
}

#[test]
fn free_code_inserts_client_fields_not_the_drawn_code() {
    let p = params(Some("mine"), Some("https://example.com"), Some(42));
    let pending = match plan_add(p.clone(), 9, "ZZZZZZ".to_string()) {
        AddStep::LookUp(pending) => pending,
        other => panic!("unexpected step {:?}", other),
    };
    let step = finish_add(pending, false);
    assert_eq!(step, AddStep::Insert(expected_insert(&p, 9)));
}

#[test]
fn refusal_messages() {
    assert_eq!(AddRefusal::UrlRequired.message(), "URL is required");
    assert_eq!(AddRefusal::ShortlinkRequired.message(), "Shortlink is required");
    assert_eq!(AddRefusal::ShortlinkExists.message(), "Shortlink already exists");
}

#[test]
fn refusals_are_html_only_for_html_clients() {
    let r = refusal_reply(&RespondTo::Html, AddRefusal::UrlRequired);
    assert_eq!(r.format, ReplyFormat::Html);
    assert_eq!(r.text, "URL is required");
    for respond_to in [
        RespondTo::Json,
        RespondTo::Xml,
        RespondTo::Unspecified,
        RespondTo::Other("text/csv".to_string()),
    ] {
        let r = refusal_reply(&respond_to, AddRefusal::ShortlinkExists);
        assert_eq!(r.format, ReplyFormat::Json);
        assert_eq!(r.text, "Shortlink already exists");
    }
}

#[test]
fn update_writes_client_fields_only() {
    let mut item = ShortlinkRecord {
        id: FieldValue::Keep(5),
        shortlink: FieldValue::Keep(Some("old".to_string())),
        url: FieldValue::Keep(Some("http://old".to_string())),
        clicks: FieldValue::Keep(Some(1)),
        users_id: FieldValue::Keep(2),
        domain_id: FieldValue::Keep(3),
        status_public: FieldValue::Keep(Some("public".to_string())),
    };
    let p = params(None, Some("http://new"), Some(10));
    p.update(&mut item);
    assert_eq!(item.shortlink, FieldValue::Assign(None));
    assert_eq!(item.url, FieldValue::Assign(Some("http://new".to_string())));
    assert_eq!(item.clicks, FieldValue::Assign(Some(10)));
    assert_eq!(item.id, FieldValue::Keep(5));
    assert_eq!(item.users_id, FieldValue::Keep(2));
    assert_eq!(item.domain_id, FieldValue::Keep(3));
    assert_eq!(item.status_public, FieldValue::Keep(Some("public".to_string())));
    let once = item.clone();
    p.update(&mut item);
    assert_eq!(item, once);
}

#[test]
fn default_record_is_unset() {
    let r = ShortlinkRecord::default();
    assert_eq!(r.id, FieldValue::Unset);
    assert_eq!(r.shortlink, FieldValue::Unset);
    assert_eq!(r.users_id, FieldValue::Unset);
}

#[test]
fn list_defaults() {
    let q = ListParams {
        limit: None,
        offset: None,
        order_by: None,
        search_query: None,
        filter_by_clicks: None,
        users_id: None,
    }
    .query();
    assert_eq!(q.limit, Some(DEFAULT_LIMIT as u64));
    assert_eq!(q.limit, Some(10));
    assert_eq!(q.offset, Some(0));
    assert!(!q.order_by_shortlink);
    assert_eq!(q.owner, None);
    assert_eq!(q.shortlink_contains, None);
    assert_eq!(q.users_id_eq, None);
    assert_eq!(q.clicks_eq, None);
}

#[test]
fn list_with_every_parameter() {
    let q = ListParams {
        limit: Some(3),
        offset: Some(6),
        order_by: Some("anything".to_string()),
        search_query: Some("AbC".to_string()),
        filter_by_clicks: Some(4),
        users_id: Some(8),
    }
    .query();
    assert_eq!(q.limit, Some(3));
    assert_eq!(q.offset, Some(6));
    assert!(q.order_by_shortlink);
    assert_eq!(q.owner, Some(8));
    assert_eq!(q.shortlink_contains, Some("abc".to_string()));
    assert_eq!(q.users_id_eq, Some(Some(8)));
    assert_eq!(q.clicks_eq, Some(4));
    assert_eq!(q.shortlink_eq, None);
}

#[test]
fn negative_limit_and_offset_wrap() {
    let q = get_all_shortlinks(-1, -2, None, None, None, None);
    assert_eq!(q.limit, Some(u64::MAX));
    assert_eq!(q.offset, Some(u64::MAX - 1));
}

#[test]
fn clicks_filter_without_user_compares_with_null() {
    let q = get_all_shortlinks(10, 0, None, None, Some(0), None);
    assert_eq!(q.users_id_eq, Some(None));
    assert_eq!(q.clicks_eq, Some(0));
}

#[test]
fn listing_query_keeps_given_search() {
    let q = listing_query(1, 2, true, Some("x".to_string()), None, Some(5));
    assert_eq!(q.limit, Some(1));
    assert_eq!(q.offset, Some(2));
    assert!(q.order_by_shortlink);
    assert_eq!(q.shortlink_contains, Some("x".to_string()));
    assert_eq!(q.owner, Some(5));
    assert_eq!(q.users_id_eq, None);
}

#[test]
fn search_is_lowercased_including_non_ascii() {
    let q = get_all_shortlinks(10, 0, None, Some("ÄBC"), None, None);
    assert_eq!(q.shortlink_contains, Some("äbc".to_string()));
}

#[test]
fn find_by_shortlink_filters_on_code() {
    let q = find_by_shortlink("ABC123");
    assert_eq!(q.shortlink_eq, Some("ABC123".to_string()));
    assert_eq!(q.limit, None);
    assert_eq!(q.owner, None);
}

#[test]
fn list_reply_outcomes() {
    let found: Result<Option<u32>, String> = Ok(Some(4));
    assert_eq!(list_reply(found), ListReply::Found(4));
    let none: Result<Option<u32>, String> = Ok(None);
    assert_eq!(list_reply(none), ListReply::Null);
    let failed: Result<Option<u32>, String> = Err("db down".to_string());
    assert_eq!(list_reply(failed), ListReply::Null);
}

#[test]
fn shortlink_routes() {
    let r = routes();
    assert_eq!(r.prefix, "api/shortlinks/");
    let table: Vec<(String, Method, Action)> =
        r.entries.iter().map(|e| (e.path.clone(), e.method, e.action)).collect();
    assert_eq!(
        table,
        vec![
            ("/".to_string(), Method::Get, Action::List),
            ("/".to_string(), Method::Post, Action::Add),
            (":id".to_string(), Method::Get, Action::GetOne),
            (":id".to_string(), Method::Delete, Action::Remove),
            (":id".to_string(), Method::Put, Action::Update),
            (":id".to_string(), Method::Patch, Action::Update),
        ]
    );
}

#[test]
fn search_in_capitals_and_in_lowercase_build_the_same_query() {
    let upper = get_all_shortlinks(10, 0, None, Some("ABC"), None, None);
    let lower = get_all_shortlinks(10, 0, None, Some("abc"), None, None);
    assert_eq!(upper, lower);
}
