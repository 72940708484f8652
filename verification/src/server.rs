//! What the ticket server answers to a request, and how it changes the store.

use vstd::prelude::*;

use crate::data::{
    decimal, json_of, status_name, DraftModel, JsonModel, TicketDraft, TicketId, TicketJson,
};
use crate::fields::{valid_description, valid_title, TicketDescription, TicketTitle};
use crate::query::{no_params, query_params, ParamsModel, QueryParams};
use crate::store::{
    add_all, add_model, empty_store, get_model, lemma_adds_from_empty, next_id, store_wf,
    ticket_from_draft, StoreModel, TicketStore,
};

verus! {

/// The method of a request, as far as the server tells them apart.
#[derive(Clone, Copy, Debug, PartialEq, Eq, Structural)]
pub enum RequestMethod {
    Get,
    Post,
    Other,
}

/// What a reply is, mathematically.
pub enum ReplyModel {
    Text(Seq<char>),
    Ticket(JsonModel),
}

/// The body of a reply: a text as it stands, or a ticket to be written as
/// JSON.
#[derive(Debug)]
pub enum Reply {
    Text(String),
    Ticket(TicketJson),
}

impl View for Reply {
    type V = ReplyModel;

    open spec fn view(&self) -> ReplyModel {
        match self {
            Reply::Text(s) => ReplyModel::Text(s@),
            Reply::Ticket(j) => ReplyModel::Ticket(j@),
        }
    }
}

/// The reply to an added ticket, naming its identifier.
pub open spec fn added_reply(id: u64) -> Seq<char> {
    "{id:\""@ + decimal(id as nat) + "\"}"@
}

/// The parameters the server reads: those of the query string of a `GET`
/// request that has one, and none otherwise.
pub open spec fn request_params(method: RequestMethod, query: Option<Seq<char>>) -> ParamsModel {
    match query {
        Some(q) => if method == RequestMethod::Get {
            query_params(q)
        } else {
            no_params()
        },
        None => no_params(),
    }
}

/// Where answering would fail: adding with a title, when the title or the
/// description is not acceptable, or when the identifier counter is free but
/// no identifier is left.
pub open spec fn route_fails(s: StoreModel, path: Seq<char>, p: ParamsModel, counter_free: bool) -> bool {
    &&& path == "/add"@
    &&& p.title is Some
    &&& {
        ||| !valid_title(p.title.unwrap())
        ||| !valid_description(p.description)
        ||| counter_free && s.counter >= u64::MAX
    }
}

/// The reply to a request for `path` with parameters `p`, and the store
/// after it. An addition made while the identifier counter is held
/// elsewhere (`!counter_free`) adds nothing and reports identifier zero.
pub open spec fn route_model(s: StoreModel, path: Seq<char>, p: ParamsModel, counter_free: bool) -> (
    ReplyModel,
    StoreModel,
) {
    if path == "/"@ {
        (ReplyModel::Text("Hello world"@), s)
    } else if path == "/get"@ {
        match p.id {
            Some(id) => match get_model(s, id) {
                Some(t) => (ReplyModel::Ticket(json_of(t)), s),
                None => (ReplyModel::Text("{error:\"No such ticket id.\"}"@), s),
            },
            None => (ReplyModel::Text("{error:\"Missing parameter ticket id : 'id'.\"}"@), s),
        }
    } else if path == "/add"@ {
        match p.title {
            Some(t) => if counter_free {
                (
                    ReplyModel::Text(added_reply(next_id(s))),
                    add_model(s, DraftModel { title: t, description: p.description }),
                )
            } else {
                (ReplyModel::Text(added_reply(0)), s)
            },
            None => (ReplyModel::Text("{error:\"Missing parameter 'draft'.\"}"@), s),
        }
    } else if path == "/stop"@ {
        (ReplyModel::Text("STOP"@), s)
    } else {
        (ReplyModel::Text("404 Error"@), s)
    }
}

/// Answers a request for `path` with parameters `params`: `/` greets, `/get`
/// returns the ticket named by `id`, `/add` adds a ticket from `title` and
/// `description`, `/stop` answers `STOP`, and any other path is not found.
/// `counter_free` tells whether the identifier counter could be taken.
pub fn route(store: &mut TicketStore, path: &str, params: &QueryParams, counter_free: bool) -> (r: Reply)
    requires
        !route_fails(old(store)@, path@, params@, counter_free),
    ensures
        r@ == route_model(old(store)@, path@, params@, counter_free).0,
        final(store)@ == route_model(old(store)@, path@, params@, counter_free).1,
{
    let path = String::from_str(path);
    if path == String::from_str("/") {
        Reply::Text(String::from_str("Hello world"))
    } else if path == String::from_str("/get") {
        match params.id {
            Some(id) => match store.get(TicketId::from(id)) {
                Some(ticket) => Reply::Ticket(TicketJson::new(ticket)),
                None => Reply::Text(String::from_str("{error:\"No such ticket id.\"}")),
            },
            None => Reply::Text(String::from_str("{error:\"Missing parameter ticket id : 'id'.\"}")),
        }
    } else if path == String::from_str("/add") {
        match &params.title {
            Some(t) => {
                let title = TicketTitle::try_from(t.as_str()).unwrap();
                let description = TicketDescription::try_from(params.description.as_str()).unwrap();
                let draft = TicketDraft { title, description };
                let id = store.try_add_ticket(draft, counter_free);
                let mut text = String::from_str("{id:\"");
                let digits = id.to_string();
                text.append(digits.as_str());
                text.append("\"}");
                Reply::Text(text)
            },
            None => Reply::Text(String::from_str("{error:\"Missing parameter 'draft'.\"}")),
        }
    } else if path == String::from_str("/stop") {
        Reply::Text(String::from_str("STOP"))
    } else {
        Reply::Text(String::from_str("404 Error"))
    }
}

/// Answers a request: reads the parameters from the query string of a `GET`
/// request, then routes it. Where routing would fail (see `route_fails`) it
/// answers nothing and leaves the store as it was.
pub fn handle_request(
    store: &mut TicketStore,
    method: RequestMethod,
    path: &str,
    query: Option<&str>,
    counter_free: bool,
) -> (r: Option<Reply>)
    ensures
        ({
            let q = match query {
                Some(q) => Some(q@),
                None => None::<Seq<char>>,
            };
            let p = request_params(method, q);
            match r {
                Some(reply) => {
                    &&& !route_fails(old(store)@, path@, p, counter_free)
                    &&& reply@ == route_model(old(store)@, path@, p, counter_free).0
                    &&& final(store)@ == route_model(old(store)@, path@, p, counter_free).1
                },
                None => route_fails(old(store)@, path@, p, counter_free) && final(store)@ == old(
                    store,
                )@,
            }
        }),
{
    let params = match query {
        Some(q) => if method == RequestMethod::Get {
            QueryParams::parse(q)
        } else {
            QueryParams::none()
        },
        None => QueryParams::none(),
    };
    let path_text = String::from_str(path);
    if path_text == String::from_str("/add") {
        match &params.title {
            Some(t) => {
                if TicketTitle::try_from(t.as_str()).is_err() {
                    return None;
                }
                if TicketDescription::try_from(params.description.as_str()).is_err() {
                    return None;
                }
                if counter_free && store.counter() == u64::MAX {
                    return None;
                }
            },
            None => {},
        }
    }
    Some(route(store, path, &params, counter_free))
}

/// Adding a ticket with the counter free and then getting the identifier that
/// the addition reported answers with that ticket's record: the given title
/// and description, to do.
pub proof fn lemma_add_then_get(s: StoreModel, add: ParamsModel, get: ParamsModel, free: bool)
    requires
        s.counter < u64::MAX,
        add.title is Some,
        get.id == Some(next_id(s)),
    ensures
        route_model(s, "/add"@, add, true).0 == ReplyModel::Text(added_reply(next_id(s))),
        route_model(route_model(s, "/add"@, add, true).1, "/get"@, get, free).0
            == ReplyModel::Ticket(
            json_of(
                ticket_from_draft(
                    next_id(s),
                    DraftModel { title: add.title.unwrap(), description: add.description },
                ),
            ),
        ),
{
    reveal_strlit("/");
    reveal_strlit("/get");
    reveal_strlit("/add");
    assert("/add"@.len() != "/"@.len());
    assert("/add"@[1] != "/get"@[1]);
    assert("/get"@.len() != "/"@.len());
}

/// `/get` with an identifier that holds a ticket answers with the record of
/// the ticket stored under that very identifier: the identifier as an `i64`,
/// that ticket's title, description and status name; the store is unchanged.
pub proof fn lemma_get_returns_requested_ticket(s: StoreModel, p: ParamsModel, free: bool, id: u64)
    requires
        store_wf(s),
        p.id == Some(id),
        s.tickets.contains_key(id),
    ensures
        route_model(s, "/get"@, p, free) == (
            ReplyModel::Ticket(
                JsonModel {
                    id: id as i64,
                    title: s.tickets[id].title,
                    description: s.tickets[id].description,
                    status: status_name(s.tickets[id].status),
                },
            ),
            s,
        ),
{
    reveal_strlit("/");
    reveal_strlit("/get");
    assert("/get"@.len() != "/"@.len());
}

/// After the drafts `ds` were added one by one to an empty store, `/get` with
/// any identifier `k` from 1 to their number answers with the `k`-th draft's
/// title and description, to do, under identifier `k`.
pub proof fn lemma_get_after_adds(ds: Seq<DraftModel>, k: u64, p: ParamsModel, free: bool)
    requires
        ds.len() <= u64::MAX,
        1 <= k <= ds.len(),
        p.id == Some(k),
    ensures
        route_model(add_all(empty_store(), ds), "/get"@, p, free).0 == ReplyModel::Ticket(
            JsonModel {
                id: k as i64,
                title: ds[k - 1].title,
                description: ds[k - 1].description,
                status: "ToDo"@,
            },
        ),
{
    lemma_adds_from_empty(ds);
    let s = add_all(empty_store(), ds);
    assert(get_model(s, k) == Some(ticket_from_draft(k, ds[k - 1])));
    lemma_get_returns_requested_ticket(s, p, free, k);
}

/// Only adding with the counter free changes the store; every other request
/// leaves it as it was.
pub proof fn lemma_only_add_changes_store(s: StoreModel, path: Seq<char>, p: ParamsModel, free: bool)
    requires
        path != "/add"@ || !free,
    ensures
        route_model(s, path, p, free).1 == s,
{
}

/// Whether `bytes` begins with `prefix`.
pub open spec fn starts_with(bytes: Seq<u8>, prefix: Seq<u8>) -> bool {
    prefix.len() <= bytes.len() && bytes.take(prefix.len() as int) == prefix
}

/// Whether `bytes` begins with `prefix`.
fn bytes_start_with(bytes: &[u8], prefix: &[u8]) -> (r: bool)
    ensures
        r == starts_with(bytes@, prefix@),
{
    if prefix.len() > bytes.len() {
        return false;
    }
    let mut i: usize = 0;
    while i < prefix.len()
        invariant
            prefix@.len() <= bytes@.len(),
            i <= prefix@.len(),
            forall|j: int| 0 <= j < i ==> bytes@[j] == prefix@[j],
        decreases prefix.len() - i,
    {
        if bytes[i] != prefix[i] {
            assert(bytes@.take(prefix@.len() as int)[i as int] != prefix@[i as int]);
            return false;
        }
        i = i + 1;
    }
    assert(bytes@.take(prefix@.len() as int) =~= prefix@);
    true
}

/// What the raw-socket server makes of the first bytes of a request.
#[derive(Clone, Copy, Debug, PartialEq, Eq, Structural)]
pub enum RawRoute {
    Root,
    Get,
    NotFound,
}

/// The request line the raw-socket server greets.
pub open spec fn root_request() -> Seq<u8> {
    vstd::utf8::encode_utf8("GET / HTTP/1.1\r\n"@)
}

/// The request line the raw-socket server answers with the second record.
pub open spec fn get_request() -> Seq<u8> {
    vstd::utf8::encode_utf8("GET /get HTTP/1.1\r\n"@)
}

/// How the raw-socket server classifies a request by its first bytes.
pub open spec fn raw_route_model(buffer: Seq<u8>) -> RawRoute {
    if starts_with(buffer, root_request()) {
        RawRoute::Root
    } else if starts_with(buffer, get_request()) {
        RawRoute::Get
    } else {
        RawRoute::NotFound
    }
}

/// The two request lines are ASCII, and they part at their sixth byte, so no
/// buffer begins with both.
proof fn lemma_request_lines()
    ensures
        root_request().len() == 16,
        get_request().len() == 19,
        root_request()[5] == 32u8,
        get_request()[5] == 103u8,
{
    reveal_strlit("GET / HTTP/1.1\r\n");
    reveal_strlit("GET /get HTTP/1.1\r\n");
    let root = "GET / HTTP/1.1\r\n"@;
    let get = "GET /get HTTP/1.1\r\n"@;
    assert(vstd::utf8::is_ascii_chars(root));
    assert(vstd::utf8::is_ascii_chars(get));
    vstd::utf8::is_ascii_chars_encode_utf8(root);
    vstd::utf8::is_ascii_chars_encode_utf8(get);
    assert(root[5] == ' ');
    assert(get[5] == 'g');
}

/// The raw server looks only at the request line: a buffer that begins with
/// the `/get` request line is classified `Get`, and so is that buffer with any
/// bytes after it (headers, or the rest of the read buffer); likewise for the
/// root request line and `Root`.
pub proof fn lemma_raw_route_by_request_line(b: Seq<u8>, rest: Seq<u8>)
    ensures
        starts_with(b, get_request()) ==> raw_route_model(b) == RawRoute::Get
            && raw_route_model(b + rest) == RawRoute::Get,
        starts_with(b, root_request()) ==> raw_route_model(b) == RawRoute::Root
            && raw_route_model(b + rest) == RawRoute::Root,
{
    lemma_request_lines();
    let whole = b + rest;
    if starts_with(b, get_request()) {
        assert(whole.take(get_request().len() as int) =~= b.take(get_request().len() as int));
        assert(b[5] == 103u8) by {
            assert(b.take(get_request().len() as int)[5] == get_request()[5]);
        }
        assert(whole[5] == 103u8);
        if starts_with(b, root_request()) {
            assert(b.take(16)[5] == root_request()[5]);
        }
        if starts_with(whole, root_request()) {
            assert(whole.take(16)[5] == root_request()[5]);
        }
    }
    if starts_with(b, root_request()) {
        assert(whole.take(root_request().len() as int) =~= b.take(root_request().len() as int));
    }
}

/// Classifies a request by its first bytes.
pub fn raw_route(buffer: &[u8]) -> (r: RawRoute)
    ensures
        r == raw_route_model(buffer@),
{
    if bytes_start_with(buffer, "GET / HTTP/1.1\r\n".as_bytes()) {
        RawRoute::Root
    } else if bytes_start_with(buffer, "GET /get HTTP/1.1\r\n".as_bytes()) {
        RawRoute::Get
    } else {
        RawRoute::NotFound
    }
}

/// The raw-socket server's response: a status line and the contents, where
/// a request that is not found gets the page `not_found_page`.
pub open spec fn raw_response_model(route: RawRoute, not_found_page: Seq<char>) -> Seq<char> {
    match route {
        RawRoute::Root => "HTTP/1.1 200 OK\r\n\r\n"@ + "{name:'toto', value:'x'}"@,
        RawRoute::Get => "HTTP/1.1 200 OK\r\n\r\n"@ + "{name:'toto', value:'y'}"@,
        RawRoute::NotFound => "HTTP/1.1 404 NOT FOUND\r\n\r\n"@ + not_found_page,
    }
}

/// Writes the raw-socket server's response for a classified request.
pub fn raw_response(route: RawRoute, not_found_page: &str) -> (s: String)
    ensures
        s@ == raw_response_model(route, not_found_page@),
{
    match route {
        RawRoute::Root => {
            let mut s = String::from_str("HTTP/1.1 200 OK\r\n\r\n");
            s.append("{name:'toto', value:'x'}");
            s
        },
        RawRoute::Get => {
            let mut s = String::from_str("HTTP/1.1 200 OK\r\n\r\n");
            s.append("{name:'toto', value:'y'}");
            s
        },
        RawRoute::NotFound => {
            let mut s = String::from_str("HTTP/1.1 404 NOT FOUND\r\n\r\n");
            s.append(not_found_page);
            s
        },
    }
}

/// Whether the server loop stops after a connection: a timeout of zero never
/// stops it, any other stops it once more whole seconds than the timeout have
/// passed.
pub fn should_stop(timeout: u64, elapsed_secs: u64) -> (stop: bool)
    ensures
        stop == (timeout > 0 && elapsed_secs > timeout),
{
    timeout > 0 && elapsed_secs > timeout
}

} // verus!
