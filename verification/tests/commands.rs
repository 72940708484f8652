use outro_08::ack::{handle_command, Command, Response};
use outro_08::data::{TicketDraft, TicketId};
use outro_08::fields::{TicketDescription, TicketTitle};
use outro_08::runtime::join_outcome;
use outro_08::store::TicketStore;

#[test]
fn insert_is_acknowledged_and_then_fetched() {
    let mut store = TicketStore::new();
    let draft = TicketDraft {
        title: TicketTitle::try_from("A title").unwrap(),
        description: TicketDescription::try_from("A description").unwrap(),
    };
    let id = match handle_command(&mut store, Command::Insert(draft)) {
        Response::Inserted(id) => id,
        other => panic!("unexpected {:?}", other),
    };
    assert_eq!(id.value(), 1);
    match handle_command(&mut store, Command::Get(id)) {
        Response::Fetched(Ok(ticket)) => {
            assert_eq!(ticket.id, id);
            assert_eq!(ticket.title.to_string(), "A title");
        }
        other => panic!("unexpected {:?}", other),
    }
}

#[test]
fn missing_ticket_is_an_error() {
    let mut store = TicketStore::new();
    match handle_command(&mut store, Command::Get(TicketId::from(4))) {
        Response::Fetched(Err(())) => {}
        other => panic!("unexpected {:?}", other),
    }
}

#[test]
fn later_error_wins() {
    assert_eq!(join_outcome::<(), &str>(Ok(()), Ok(())), Ok(()));
    assert_eq!(join_outcome::<(), &str>(Err("a"), Ok(())), Err("a"));
    assert_eq!(join_outcome::<(), &str>(Ok(()), Err("b")), Err("b"));
    assert_eq!(join_outcome::<(), &str>(Err("a"), Err("b")), Err("b"));
}
