use shortlink::controllers::domain::{
    add, finish_add, refusal_reply, routes, AddRefusal, AddStep, Params, MAX_DOMAINS_PER_USER,
};
use shortlink::http::{Action, Method, ReplyFormat, RespondTo};
use shortlink::models::domains::{check_max_domain_by_user, domains_of_user, find_by_domain, DomainRecord};
use shortlink::models::FieldValue;

fn params(domain: Option<&str>, status: Option<&str>) -> Params {
    Params { domain: domain.map(|s| s.to_string()), status: status.map(|s| s.to_string()) }
}

fn expected_insert(p: &Params, users_id: i32) -> DomainRecord {
    DomainRecord {
        id: FieldValue::Unset,
        domain: FieldValue::Assign(p.domain.clone()),
        status: FieldValue::Assign(p.status.clone()),
        users_id: FieldValue::Assign(users_id),
    }
}

fn pending_for(p: &Params, users_id: i32) -> shortlink::controllers::domain::PendingAdd {
    match add(p.clone(), users_id) {
        AddStep::LookUp(pending) => pending,
        other => panic!("unexpected step {:?}", other),
    }
}

#[test]
fn domain_limit_is_five() {
    assert_eq!(MAX_DOMAINS_PER_USER, 5);
}

#[test]
fn check_max_domain_counts() {
    assert!(check_max_domain_by_user(0, 5));
    assert!(check_max_domain_by_user(4, 5));
    assert!(!check_max_domain_by_user(5, 5));
    assert!(!check_max_domain_by_user(6, 5));
    assert!(!check_max_domain_by_user(0, 0));
}

#[test]
fn negative_domain_limit_wraps() {
    assert!(check_max_domain_by_user(1_000_000, -1));
    assert!(!check_max_domain_by_user(u64::MAX, -1));
    assert!(check_max_domain_by_user(u64::MAX - 1, -1));
}

#[test]
fn add_without_domain_inserts_at_once() {
    let p = params(None, Some("active"));
    assert_eq!(add(p.clone(), 3), AddStep::Insert(expected_insert(&p, 3)));
}

#[test]
fn add_with_domain_looks_it_up() {
    let p = params(Some("example.com"), None);
    let pending = pending_for(&p, 3);
    assert_eq!(pending.domain, "example.com");
    assert_eq!(pending.users_id, 3);
    assert_eq!(pending.params, p);
}

#[test]
fn existing_domain_is_refused_before_the_limit() {
    let p = params(Some("example.com"), None);
    assert_eq!(finish_add(pending_for(&p, 3), true, 0), AddStep::Refuse(AddRefusal::DomainExists));
    assert_eq!(finish_add(pending_for(&p, 3), true, 99), AddStep::Refuse(AddRefusal::DomainExists));
}

#[test]
fn full_user_is_refused() {
    let p = params(Some("example.com"), None);
    assert_eq!(finish_add(pending_for(&p, 3), false, 5), AddStep::Refuse(AddRefusal::MaxDomainReached));
    assert_eq!(finish_add(pending_for(&p, 3), false, 12), AddStep::Refuse(AddRefusal::MaxDomainReached));
}

#[test]
fn new_domain_under_the_limit_is_inserted() {
    let p = params(Some("example.com"), Some("pending"));
    assert_eq!(finish_add(pending_for(&p, 3), false, 4), AddStep::Insert(expected_insert(&p, 3)));
    assert_eq!(finish_add(pending_for(&p, 3), false, 0), AddStep::Insert(expected_insert(&p, 3)));
}

#[test]
fn domain_refusal_messages() {
    assert_eq!(AddRefusal::DomainExists.message(), "Domain already exists");
    assert_eq!(AddRefusal::MaxDomainReached.message(), "Max domain reached");
    let r = refusal_reply(&RespondTo::Html, AddRefusal::MaxDomainReached);
    assert_eq!(r.format, ReplyFormat::Html);
    assert_eq!(r.text, "Max domain reached");
    let r = refusal_reply(&RespondTo::Xml, AddRefusal::DomainExists);
    assert_eq!(r.format, ReplyFormat::Json);
    assert_eq!(r.text, "Domain already exists");
}

#[test]
fn domain_update_writes_name_and_status() {
    let mut item = DomainRecord {
        id: FieldValue::Keep(1),
        domain: FieldValue::Keep(Some("old.org".to_string())),
        status: FieldValue::Keep(None),
        users_id: FieldValue::Keep(4),
    };
    let p = params(Some("new.org"), Some("verified"));
    p.update(&mut item);
    assert_eq!(item.domain, FieldValue::Assign(Some("new.org".to_string())));
    assert_eq!(item.status, FieldValue::Assign(Some("verified".to_string())));
    assert_eq!(item.id, FieldValue::Keep(1));
    assert_eq!(item.users_id, FieldValue::Keep(4));
    let once = item.clone();
    p.update(&mut item);
    assert_eq!(item, once);
}

#[test]
fn domain_queries() {
    let q = find_by_domain("example.com");
    assert_eq!(q.domain_eq, Some("example.com".to_string()));
    assert_eq!(q.users_id_eq, None);
    let q = domains_of_user(12);
    assert_eq!(q.domain_eq, None);
    assert_eq!(q.users_id_eq, Some(12));
}

#[test]
fn domain_routes() {
    let r = routes();
    assert_eq!(r.prefix, "api/domains/");
    assert_eq!(r.entries.len(), 6);
    let updates: Vec<Method> =
        r.entries.iter().filter(|e| e.action == Action::Update).map(|e| e.method).collect();
    assert_eq!(updates, vec![Method::Put, Method::Patch]);
    assert!(r.entries.iter().all(|e| e.path == "/" || e.path == ":id"));
}

#[test]
fn routes_bind_each_path_and_method_once() {
    for r in [routes(), shortlink::controllers::shortlinks::routes()] {
        for (i, a) in r.entries.iter().enumerate() {
            for b in r.entries.iter().skip(i + 1) {
                assert!(!(a.path == b.path && a.method == b.method));
            }
        }
    }
}

#[test]
fn registrations_keep_names_unique_and_users_under_the_limit() {
    let mut table: Vec<(Option<String>, i32)> = Vec::new();
    let requests = [
        (Some("a.org"), 1),
        (Some("b.org"), 1),
        (Some("a.org"), 2),
        (Some("c.org"), 1),
        (Some("d.org"), 1),
        (Some("e.org"), 1),
        (Some("f.org"), 1),
        (Some("f.org"), 2),
        (None, 1),
        (Some("g.org"), 2),
    ];
    for (name, user) in requests {
        let p = params(name, None);
        let step = match add(p.clone(), user) {
            AddStep::LookUp(pending) => {
                let existing = table.iter().any(|(d, _)| d.as_deref() == Some(pending.domain.as_str()));
                let count = table.iter().filter(|(_, u)| *u == pending.users_id).count() as u64;
                finish_add(pending, existing, count)
            }
            other => other,
        };
        if let AddStep::Insert(record) = step {
            assert_eq!(record, expected_insert(&p, user));
            table.push((p.domain.clone(), user));
        }
        let named: Vec<&String> = table.iter().filter_map(|(d, _)| d.as_ref()).collect();
        for (i, a) in named.iter().enumerate() {
            assert!(!named[i + 1..].contains(a));
        }
        for u in [1, 2] {
            let owned_named = table.iter().filter(|(d, o)| *o == u && d.is_some()).count();
            assert!(owned_named <= MAX_DOMAINS_PER_USER as usize);
        }
    }
    assert_eq!(table.iter().filter(|(_, u)| *u == 1).count(), 6);
    assert!(table.contains(&(Some("g.org".to_string()), 2)));
    assert!(!table.contains(&(Some("a.org".to_string()), 2)));
}
