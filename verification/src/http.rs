//! How the service answers: the reply format a client asked for, plain-text
//! replies, and route tables.

use vstd::prelude::*;

verus! {

/// The kind of answer a client asked for.
#[derive(PartialEq, Eq, Clone, Debug)]
pub enum RespondTo {
    /// No particular format was asked for.
    Unspecified,
    Html,
    Json,
    Xml,
    Other(String),
}

/// The format in which a reply is sent.
#[derive(PartialEq, Eq, Structural, Clone, Copy, Debug)]
pub enum ReplyFormat {
    Html,
    Json,
}

/// A reply made of one message, and the format it is sent in.
#[derive(PartialEq, Eq, Clone, Debug)]
pub struct Reply {
    pub format: ReplyFormat,
    pub text: String,
}

/// Messages go out as HTML to clients that asked for HTML and as JSON to
/// every other client.
pub open spec fn reply_format_for(respond_to: RespondTo) -> ReplyFormat {
    match respond_to {
        RespondTo::Html => ReplyFormat::Html,
        _ => ReplyFormat::Json,
    }
}

/// Only a client that asked for HTML gets HTML; JSON, XML, unnamed and
/// other formats all get JSON.
pub proof fn lemma_reply_format(respond_to: RespondTo)
    ensures
        reply_format_for(respond_to) == ReplyFormat::Html <==> respond_to is Html,
        reply_format_for(respond_to) == ReplyFormat::Json <==> !(respond_to is Html),
{
}

/// The reply that carries `text` to a client that asked for `respond_to`.
pub fn message_reply(respond_to: &RespondTo, text: String) -> (reply: Reply)
    ensures
        reply.format == reply_format_for(*respond_to),
        (reply.format == ReplyFormat::Html) <==> (*respond_to is Html),
        reply.text == text,
{
    let format = match respond_to {
        RespondTo::Html => ReplyFormat::Html,
        _ => ReplyFormat::Json,
    };
    Reply { format, text }
}

/// An HTTP method that a route answers.
#[derive(PartialEq, Eq, Structural, Clone, Copy, Debug)]
pub enum Method {
    Get,
    Post,
    Put,
    Patch,
    Delete,
}

/// What a route does with a resource.
#[derive(PartialEq, Eq, Structural, Clone, Copy, Debug)]
pub enum Action {
    List,
    Add,
    GetOne,
    Remove,
    Update,
}

/// One route: a path under the table's prefix, a method, and the action it
/// leads to.
#[derive(PartialEq, Eq, Clone, Debug)]
pub struct Route {
    pub path: String,
    pub method: Method,
    pub action: Action,
}

/// A route table: a common prefix and the routes under it.
#[derive(PartialEq, Eq, Clone, Debug)]
pub struct Routes {
    pub prefix: String,
    pub entries: Vec<Route>,
}

impl View for Route {
    type V = (Seq<char>, Method, Action);

    open spec fn view(&self) -> (Seq<char>, Method, Action) {
        (self.path@, self.method, self.action)
    }
}

impl View for Routes {
    type V = (Seq<char>, Seq<(Seq<char>, Method, Action)>);

    open spec fn view(&self) -> (Seq<char>, Seq<(Seq<char>, Method, Action)>) {
        (self.prefix@, self.entries@.map_values(|r: Route| r@))
    }
}

/// The routes of a resource kept under `prefix`: list and add at its root,
/// fetch, remove and update (by PUT or PATCH) at `:id`.
pub open spec fn resource_table(prefix: Seq<char>) -> (Seq<char>, Seq<(Seq<char>, Method, Action)>) {
    (
        prefix,
        seq![
            ("/"@, Method::Get, Action::List),
            ("/"@, Method::Post, Action::Add),
            (":id"@, Method::Get, Action::GetOne),
            (":id"@, Method::Delete, Action::Remove),
            (":id"@, Method::Put, Action::Update),
            (":id"@, Method::Patch, Action::Update),
        ],
    )
}

fn route(path: &str, method: Method, action: Action) -> (r: Route)
    ensures
        r@ == (path@, method, action),
{
    Route { path: String::from_str(path), method, action }
}

/// The route table of a resource kept under `prefix`.
pub fn resource_routes(prefix: &str) -> (routes: Routes)
    ensures
        routes@ == resource_table(prefix@),
{
    let mut entries: Vec<Route> = Vec::new();
    entries.push(route("/", Method::Get, Action::List));
    entries.push(route("/", Method::Post, Action::Add));
    entries.push(route(":id", Method::Get, Action::GetOne));
    entries.push(route(":id", Method::Delete, Action::Remove));
    entries.push(route(":id", Method::Put, Action::Update));
    entries.push(route(":id", Method::Patch, Action::Update));
    let routes = Routes { prefix: String::from_str(prefix), entries };
    assert(routes@.1 =~= resource_table(prefix@).1);
    routes
}

/// Every resource has the same six routes, whatever its prefix: list at
/// `GET /`, add at `POST /`, fetch one at `GET :id`, remove at
/// `DELETE :id`, update at `PUT :id` and at `PATCH :id`.
pub proof fn lemma_resource_table_entries(prefix: Seq<char>, other: Seq<char>)
    ensures
        resource_table(prefix).0 == prefix,
        resource_table(prefix).1 == resource_table(other).1,
        resource_table(prefix).1.len() == 6,
        resource_table(prefix).1.contains(("/"@, Method::Get, Action::List)),
        resource_table(prefix).1.contains(("/"@, Method::Post, Action::Add)),
        resource_table(prefix).1.contains((":id"@, Method::Get, Action::GetOne)),
        resource_table(prefix).1.contains((":id"@, Method::Delete, Action::Remove)),
        resource_table(prefix).1.contains((":id"@, Method::Put, Action::Update)),
        resource_table(prefix).1.contains((":id"@, Method::Patch, Action::Update)),
{
    let t = resource_table(prefix).1;
    assert(t[0] == ("/"@, Method::Get, Action::List));
    assert(t[1] == ("/"@, Method::Post, Action::Add));
    assert(t[2] == (":id"@, Method::Get, Action::GetOne));
    assert(t[3] == (":id"@, Method::Delete, Action::Remove));
    assert(t[4] == (":id"@, Method::Put, Action::Update));
    assert(t[5] == (":id"@, Method::Patch, Action::Update));
}

/// A request for one resource by its id (`GET :id`) fetches it: no route
/// binds that path and method to any other action.
pub proof fn lemma_get_by_id_fetches_one(prefix: Seq<char>, i: int)
    requires
        0 <= i < resource_table(prefix).1.len(),
        resource_table(prefix).1[i].0 == ":id"@,
        resource_table(prefix).1[i].1 == Method::Get,
    ensures
        resource_table(prefix).1[i].2 == Action::GetOne,
{
    reveal_strlit("/");
    reveal_strlit(":id");
    assert("/"@ != ":id"@) by {
        assert("/"@.len() != ":id"@.len());
    }
}

/// In a resource's route table no path and method are bound twice, so each
/// request reaches at most one action.
pub proof fn lemma_resource_routes_unambiguous(prefix: Seq<char>, i: int, j: int)
    requires
        0 <= i < j < resource_table(prefix).1.len(),
    ensures
        (resource_table(prefix).1[i].0, resource_table(prefix).1[i].1)
            != (resource_table(prefix).1[j].0, resource_table(prefix).1[j].1),
{
    reveal_strlit("/");
    reveal_strlit(":id");
    assert("/"@ != ":id"@) by {
        assert("/"@.len() != ":id"@.len());
    }
}

/// A resource is updated by PUT and by PATCH alike, at `:id`.
pub proof fn lemma_resource_update_by_put_and_patch(prefix: Seq<char>)
    ensures
        resource_table(prefix).1.contains((":id"@, Method::Put, Action::Update)),
        resource_table(prefix).1.contains((":id"@, Method::Patch, Action::Update)),
{
    assert(resource_table(prefix).1[4] == (":id"@, Method::Put, Action::Update));
    assert(resource_table(prefix).1[5] == (":id"@, Method::Patch, Action::Update));
}

} // verus!
