//! The command server: each command changes the store and is acknowledged
//! with a response.

use vstd::prelude::*;

use crate::data::{DraftModel, Ticket, TicketDraft, TicketId, TicketModel};
use crate::data::Status;
use crate::store::{
    add_all, add_model, empty_store, get_model, lemma_adds_from_empty, next_id, ticket_from_draft,
    StoreModel, TicketStore,
};

verus! {

/// A request to the command server.
#[derive(Debug)]
pub enum Command {
    /// Add a ticket made from this draft.
    Insert(TicketDraft),
    /// Fetch the ticket with this identifier.
    Get(TicketId),
}

/// What a command is, mathematically.
pub enum CommandModel {
    Insert(DraftModel),
    Get(u64),
}

impl View for Command {
    type V = CommandModel;

    open spec fn view(&self) -> CommandModel {
        match self {
            Command::Insert(d) => CommandModel::Insert(d@),
            Command::Get(id) => CommandModel::Get(id@),
        }
    }
}

/// The acknowledgement of a command.
#[derive(Debug)]
pub enum Response {
    /// The identifier the inserted ticket got.
    Inserted(TicketId),
    /// A copy of the fetched ticket, or `Err(())` when there is none.
    Fetched(Result<Ticket, ()>),
}

/// What a response is, mathematically.
pub enum ResponseModel {
    Inserted(u64),
    Fetched(Result<TicketModel, ()>),
}

impl View for Response {
    type V = ResponseModel;

    open spec fn view(&self) -> ResponseModel {
        match self {
            Response::Inserted(id) => ResponseModel::Inserted(id@),
            Response::Fetched(Ok(t)) => ResponseModel::Fetched(Ok(t@)),
            Response::Fetched(Err(e)) => ResponseModel::Fetched(Err(*e)),
        }
    }
}

/// The response to a command and the store after it.
pub open spec fn command_model(s: StoreModel, c: CommandModel) -> (ResponseModel, StoreModel) {
    match c {
        CommandModel::Insert(d) => (ResponseModel::Inserted(next_id(s)), add_model(s, d)),
        CommandModel::Get(id) => match get_model(s, id) {
            Some(t) => (ResponseModel::Fetched(Ok(t)), s),
            None => (ResponseModel::Fetched(Err(())), s),
        },
    }
}

/// Carries out one command on the store. An insert needs an identifier left.
pub fn handle_command(store: &mut TicketStore, command: Command) -> (r: Response)
    requires
        command is Insert ==> old(store)@.counter < u64::MAX,
    ensures
        r@ == command_model(old(store)@, command@).0,
        final(store)@ == command_model(old(store)@, command@).1,
{
    match command {
        Command::Insert(draft) => Response::Inserted(store.add_ticket(draft)),
        Command::Get(id) => match store.get(id) {
            Some(ticket) => Response::Fetched(Ok(ticket)),
            None => Response::Fetched(Err(())),
        },
    }
}

/// Fetching the identifier that an insert acknowledged gives the inserted
/// ticket, to do; fetching changes nothing.
pub proof fn lemma_insert_then_get(s: StoreModel, d: DraftModel)
    requires
        s.counter < u64::MAX,
    ensures
        ({
            let (ack, s1) = command_model(s, CommandModel::Insert(d));
            &&& ack == ResponseModel::Inserted(next_id(s))
            &&& command_model(s1, CommandModel::Get(next_id(s))) == (
                ResponseModel::Fetched(Ok(ticket_from_draft(next_id(s), d))),
                s1,
            )
        }),
{
}

/// Fetching any identifier that holds a ticket answers with that very ticket
/// and changes nothing.
pub proof fn lemma_get_fetches_stored_ticket(s: StoreModel, id: u64)
    requires
        s.tickets.contains_key(id),
    ensures
        command_model(s, CommandModel::Get(id)) == (ResponseModel::Fetched(Ok::<TicketModel, ()>(s.tickets[id])), s),
{
}

/// After the drafts `ds` were inserted one by one into an empty store,
/// fetching any identifier `k` from 1 to their number answers with the
/// `k`-th draft's title and description, to do, under identifier `k`.
pub proof fn lemma_get_after_inserts(ds: Seq<DraftModel>, k: u64)
    requires
        ds.len() <= u64::MAX,
        1 <= k <= ds.len(),
    ensures
        command_model(add_all(empty_store(), ds), CommandModel::Get(k)).0 == ResponseModel::Fetched(
            Ok::<TicketModel, ()>(
                TicketModel {
                    id: k,
                    title: ds[k - 1].title,
                    description: ds[k - 1].description,
                    status: Status::ToDo,
                },
            ),
        ),
{
    lemma_adds_from_empty(ds);
    assert(get_model(add_all(empty_store(), ds), k) == Some(ticket_from_draft(k, ds[k - 1])));
}

/// Fetching an identifier that no ticket has is answered with `Err(())`.
pub proof fn lemma_get_missing(s: StoreModel, id: u64)
    requires
        !s.tickets.contains_key(id),
    ensures
        command_model(s, CommandModel::Get(id)) == (ResponseModel::Fetched(Err::<TicketModel, ()>(())), s),
{
}

} // verus!
