use outro_08::data::{Status, TicketDraft, TicketId, TicketJson};
use outro_08::fields::{TicketDescription, TicketDescriptionError, TicketTitle, TicketTitleError};
use outro_08::query::QueryParams;
use outro_08::server::{
    handle_request, raw_response, raw_route, route, should_stop, RawRoute, Reply, RequestMethod,
};
use outro_08::store::TicketStore;

fn draft(title: &str, description: &str) -> TicketDraft {
    TicketDraft {
        title: TicketTitle::try_from(title).unwrap(),
        description: TicketDescription::try_from(description).unwrap(),
    }
}

fn text(reply: Option<Reply>) -> String {
    match reply {
        Some(Reply::Text(s)) => s,
        other => panic!("expected a text reply, got {:?}", other),
    }
}

#[test]
fn store() {
    let mut store = TicketStore::new();
    let draft = TicketDraft {
        title: TicketTitle::try_from("Toto").unwrap(),
        description: TicketDescription::try_from("il va bien").unwrap(),
    };
    let id = store.add_ticket(draft);
    let ticket = store.get(id).unwrap();
    assert_eq!(ticket.title.to_string(), "Toto".to_string());
}

#[test]
fn store_hands_out_consecutive_ids_from_one() {
    let mut store = TicketStore::new();
    assert!(store.get(TicketId::from(1)).is_none());
    let first = store.add_ticket(draft("a", "b"));
    let second = store.add_ticket(draft("c", "d"));
    assert_eq!(first.value(), 1);
    assert_eq!(second.value(), 2);
    assert_eq!(store.counter(), 2);
    let t = store.get(second).unwrap();
    assert_eq!(t.id, second);
    assert_eq!(t.title.to_string(), "c");
    assert_eq!(t.description.to_string(), "d");
    assert_eq!(t.status, Status::ToDo);
    assert_eq!(store.get(first).unwrap().title.to_string(), "a");
    assert!(store.get(TicketId::from(3)).is_none());
}

#[test]
fn title_and_description_validation() {
    assert_eq!(TicketTitle::try_from("").unwrap_err(), TicketTitleError::Empty);
    assert_eq!(TicketTitle::try_from(&"x".repeat(51)).unwrap_err(), TicketTitleError::TooLong);
    assert_eq!(TicketTitle::try_from(&"x".repeat(50)).unwrap().as_str().len(), 50);
    // 26 two-byte characters are 52 bytes: too long although only 26 characters.
    assert_eq!(TicketTitle::try_from(&"é".repeat(26)).unwrap_err(), TicketTitleError::TooLong);
    assert_eq!(TicketDescription::try_from("").unwrap_err(), TicketDescriptionError::Empty);
    assert_eq!(
        TicketDescription::try_from(&"y".repeat(501)).unwrap_err(),
        TicketDescriptionError::TooLong
    );
    assert!(TicketDescription::try_from(&"y".repeat(500)).is_ok());
}

#[test]
fn id_and_status_text() {
    assert_eq!(TicketId::from(0).to_string(), "0");
    assert_eq!(TicketId::from(1207).to_string(), "1207");
    assert_eq!(TicketId::from(u64::MAX).to_string(), "18446744073709551615");
    assert_eq!(Status::ToDo.to_string(), "ToDo");
    assert_eq!(Status::InProgress.to_string(), "InProgress");
    assert_eq!(Status::Done.to_string(), "Done");
}

#[test]
fn json_record_and_draft_roundtrip() {
    let mut store = TicketStore::new();
    let id = store.add_ticket(draft("alberic", "de la Crochais"));
    let json = TicketJson::new(store.get(id).unwrap());
    assert_eq!(json.id, 1);
    assert_eq!(json.title, "alberic");
    assert_eq!(json.description, "de la Crochais");
    assert_eq!(json.status, "ToDo");
    let back = json.draft();
    assert_eq!(back.title.to_string(), "alberic");
    assert_eq!(back.description.to_string(), "de la Crochais");
}

#[test]
fn query_parameters_are_decoded_and_the_last_one_wins() {
    let p = QueryParams::parse("title=alberic&description=de%20la+Crochais&id=7&id=12");
    assert_eq!(p.id, Some(12));
    assert_eq!(p.title.as_deref(), Some("alberic"));
    assert_eq!(p.description, "de la Crochais");
    let p = QueryParams::parse("id=abc&other=1");
    assert_eq!(p.id, None);
    assert_eq!(p.title, None);
    assert_eq!(p.description, "");
    // A `+` decodes to a space, so only an encoded plus sign reaches the number.
    assert_eq!(QueryParams::parse("id=+5").id, None);
    assert_eq!(QueryParams::parse("id=%2B5").id, Some(5));
    assert_eq!(QueryParams::parse("id=-5").id, None);
    assert_eq!(QueryParams::parse("id=18446744073709551616").id, None);
}

#[test]
fn get_on_an_empty_store_names_no_ticket() {
    let mut store = TicketStore::new();
    let reply = handle_request(&mut store, RequestMethod::Get, "/get", Some("id=1"), true);
    assert_eq!(text(reply), "{error:\"No such ticket id.\"}");
}

#[test]
fn add_then_get_returns_the_ticket() {
    let mut store = TicketStore::new();
    let reply = handle_request(
        &mut store,
        RequestMethod::Get,
        "/add",
        Some("title=alberic&description=de%20la%20Crochais"),
        true,
    );
    assert_eq!(text(reply), "{id:\"1\"}");
    match handle_request(&mut store, RequestMethod::Get, "/get", Some("id=1"), true) {
        Some(Reply::Ticket(json)) => {
            assert_eq!(json.id, 1);
            assert_eq!(json.title, "alberic");
            assert_eq!(json.description, "de la Crochais");
            assert_eq!(json.status, "ToDo");
        }
        other => panic!("expected a ticket, got {:?}", other),
    }
}

#[test]
fn other_paths_and_missing_parameters() {
    let mut store = TicketStore::new();
    assert_eq!(text(handle_request(&mut store, RequestMethod::Get, "/", None, true)), "Hello world");
    assert_eq!(text(handle_request(&mut store, RequestMethod::Get, "/stop", None, true)), "STOP");
    assert_eq!(text(handle_request(&mut store, RequestMethod::Get, "/nope", None, true)), "404 Error");
    assert_eq!(
        text(handle_request(&mut store, RequestMethod::Get, "/get", None, true)),
        "{error:\"Missing parameter ticket id : 'id'.\"}"
    );
    assert_eq!(
        text(handle_request(&mut store, RequestMethod::Get, "/add", Some("description=x"), true)),
        "{error:\"Missing parameter 'draft'.\"}"
    );
    // Parameters of a request that is not a GET are not read.
    assert_eq!(
        text(handle_request(&mut store, RequestMethod::Post, "/get", Some("id=1"), true)),
        "{error:\"Missing parameter ticket id : 'id'.\"}"
    );
    assert_eq!(store.counter(), 0);
}

#[test]
fn add_with_an_unacceptable_field_is_refused_and_changes_nothing() {
    let mut store = TicketStore::new();
    assert!(handle_request(&mut store, RequestMethod::Get, "/add", Some("title=t"), true).is_none());
    assert!(handle_request(&mut store, RequestMethod::Get, "/add", Some("title=&description=d"), true).is_none());
    assert_eq!(store.counter(), 0);
}

#[test]
fn route_uses_the_given_parameters() {
    let mut store = TicketStore::new();
    let params = QueryParams { id: None, title: Some("t".to_string()), description: "d".to_string() };
    match route(&mut store, "/add", &params, true) {
        Reply::Text(s) => assert_eq!(s, "{id:\"1\"}"),
        other => panic!("unexpected {:?}", other),
    }
    let params = QueryParams { id: Some(1), title: None, description: String::new() };
    match route(&mut store, "/get", &params, true) {
        Reply::Ticket(json) => assert_eq!(json.title, "t"),
        other => panic!("unexpected {:?}", other),
    }
}

#[test]
fn add_while_the_counter_is_held_reports_id_zero() {
    let mut store = TicketStore::new();
    let reply = handle_request(
        &mut store,
        RequestMethod::Get,
        "/add",
        Some("title=t&description=d"),
        false,
    );
    assert_eq!(text(reply), "{id:\"0\"}");
    assert_eq!(store.counter(), 0);
    let id = store.try_add_ticket(draft("t", "d"), false);
    assert_eq!(id.value(), 0);
    assert!(store.get(TicketId::from(1)).is_none());
    let id = store.try_add_ticket(draft("t", "d"), true);
    assert_eq!(id.value(), 1);
}

#[test]
fn raw_requests_are_classified_by_their_first_line() {
    assert_eq!(raw_route(b"GET / HTTP/1.1\r\nHost: x\r\n"), RawRoute::Root);
    assert_eq!(raw_route(b"GET /get HTTP/1.1\r\n"), RawRoute::Get);
    assert_eq!(raw_route(b"GET /other HTTP/1.1\r\n"), RawRoute::NotFound);
    assert_eq!(raw_route(b"GET /"), RawRoute::NotFound);
    assert_eq!(
        raw_response(RawRoute::Root, "unused"),
        "HTTP/1.1 200 OK\r\n\r\n{name:'toto', value:'x'}"
    );
    assert_eq!(
        raw_response(RawRoute::Get, "unused"),
        "HTTP/1.1 200 OK\r\n\r\n{name:'toto', value:'y'}"
    );
    assert_eq!(
        raw_response(RawRoute::NotFound, "<p>missing</p>"),
        "HTTP/1.1 404 NOT FOUND\r\n\r\n<p>missing</p>"
    );
}

#[test]
fn timeout_stops_the_loop_only_when_set_and_exceeded() {
    assert!(!should_stop(0, 1000));
    assert!(!should_stop(30, 30));
    assert!(should_stop(30, 31));
}

#[test]
fn identifiers_compare_as_their_numbers() {
    assert!(TicketId::from(1) < TicketId::from(2));
    assert!(TicketId::from(9) > TicketId::from(2));
    assert!(TicketId::from(7) <= TicketId::from(7));
    assert_eq!(TicketId::from(7), TicketId::from(7));
    assert_ne!(TicketId::from(7), TicketId::from(8));
}

#[test]
fn every_identifier_up_to_the_counter_is_present() {
    let mut store = TicketStore::new();
    for n in 1..=5u64 {
        let id = store.add_ticket(draft("t", "d"));
        assert_eq!(id.value(), n);
    }
    assert_eq!(store.try_add_ticket(draft("t", "d"), false).value(), 0);
    for k in 0..=7u64 {
        let found = store.get(TicketId::from(k));
        assert_eq!(found.is_some(), 1 <= k && k <= 5);
        if let Some(t) = found {
            assert_eq!(t.id, TicketId::from(k));
        }
    }
}
