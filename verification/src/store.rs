//! A store of tickets, keyed by identifiers handed out in increasing order.

use std::collections::BTreeMap;
use vstd::prelude::*;

use crate::data::{DraftModel, Status, Ticket, TicketDraft, TicketId, TicketModel};

verus! {

broadcast use vstd::std_specs::btree::group_btree_axioms;

/// What a store is, mathematically: the last identifier handed out (zero
/// before the first), and the tickets by identifier.
pub struct StoreModel {
    pub counter: nat,
    pub tickets: Map<u64, TicketModel>,
}

/// The stored identifiers are exactly 1 to the last one handed out, and every
/// stored ticket sits under its own identifier.
pub open spec fn store_wf(s: StoreModel) -> bool {
    &&& s.counter <= u64::MAX
    &&& forall|k: u64| #[trigger] s.tickets.contains_key(k) <==> 1 <= k <= s.counter
    &&& forall|k: u64| #[trigger] s.tickets.contains_key(k) ==> s.tickets[k].id == k
}

/// The store before any ticket was added.
pub open spec fn empty_store() -> StoreModel {
    StoreModel { counter: 0, tickets: Map::empty() }
}

/// The identifier that the next added ticket gets.
pub open spec fn next_id(s: StoreModel) -> u64 {
    (s.counter + 1) as u64
}

/// The ticket that a draft becomes under identifier `id`: to do.
pub open spec fn ticket_from_draft(id: u64, d: DraftModel) -> TicketModel {
    TicketModel { id, title: d.title, description: d.description, status: Status::ToDo }
}

/// The store after adding a draft.
pub open spec fn add_model(s: StoreModel, d: DraftModel) -> StoreModel {
    StoreModel {
        counter: s.counter + 1,
        tickets: s.tickets.insert(next_id(s), ticket_from_draft(next_id(s), d)),
    }
}

/// The ticket stored under `id`, if any.
pub open spec fn get_model(s: StoreModel, id: u64) -> Option<TicketModel> {
    if s.tickets.contains_key(id) {
        Some(s.tickets[id])
    } else {
        None
    }
}

/// Tickets by identifier, and the last identifier handed out.
pub struct TicketStore {
    tickets: BTreeMap<u64, Ticket>,
    counter: u64,
}

impl View for TicketStore {
    type V = StoreModel;

    closed spec fn view(&self) -> StoreModel {
        StoreModel {
            counter: self.counter as nat,
            tickets: self.tickets@.map_values(|t: Ticket| t@),
        }
    }
}

impl TicketStore {
    #[verifier::type_invariant]
    closed spec fn consistent(self) -> bool {
        &&& forall|k: u64| #[trigger] self.tickets@.contains_key(k) <==> 1 <= k <= self.counter
        &&& forall|k: u64| #[trigger] self.tickets@.contains_key(k) ==> self.tickets@[k].id@ == k
    }

    /// An empty store.
    pub fn new() -> (store: Self)
        ensures
            store@ == empty_store(),
            store_wf(store@),
    {
        let store = TicketStore { tickets: BTreeMap::new(), counter: 0 };
        assert(store@.tickets =~= Map::<u64, TicketModel>::empty());
        store
    }

    /// The last identifier handed out, zero before the first.
    pub fn counter(&self) -> (c: u64)
        ensures
            c == self@.counter,
    {
        self.counter
    }

    /// Adds a ticket made from `ticket`, to do, under the next identifier,
    /// and returns that identifier. The identifiers must not be used up.
    pub fn add_ticket(&mut self, ticket: TicketDraft) -> (id: TicketId)
        requires
            old(self)@.counter < u64::MAX,
        ensures
            id@ == next_id(old(self)@),
            final(self)@ == add_model(old(self)@, ticket@),
            store_wf(final(self)@),
    {
        proof {
            use_type_invariant(&*self);
        }
        let next = self.counter + 1;
        let id = TicketId::from(next);
        let stored = Ticket {
            id,
            title: ticket.title,
            description: ticket.description,
            status: Status::ToDo,
        };
        let mut taken = TicketStore { tickets: BTreeMap::new(), counter: 0 };
        std::mem::swap(self, &mut taken);
        let TicketStore { mut tickets, counter: _ } = taken;
        let ghost before = tickets@;
        tickets.insert(next, stored);
        proof {
            assert forall|k: u64| #[trigger] tickets@.contains_key(k) implies tickets@[k].id@ == k by {
                if k != next {
                    assert(before.contains_key(k));
                }
            }
        }
        *self = TicketStore { tickets, counter: next };
        proof {
            assert(self.tickets@ == before.insert(next, stored));
            assert(self@.tickets =~= old(self)@.tickets.insert(
                next_id(old(self)@),
                crate::store::ticket_from_draft(next_id(old(self)@), ticket@),
            ));
        }
        id
    }

    /// Adds a ticket as `add_ticket` does when the identifier counter could be
    /// taken (`counter_free`); when another addition held it, adds nothing and
    /// returns identifier zero.
    pub fn try_add_ticket(&mut self, ticket: TicketDraft, counter_free: bool) -> (id: TicketId)
        requires
            counter_free ==> old(self)@.counter < u64::MAX,
        ensures
            counter_free ==> id@ == next_id(old(self)@) && final(self)@ == add_model(
                old(self)@,
                ticket@,
            ),
            !counter_free ==> id@ == 0 && final(self)@ == old(self)@,
            store_wf(final(self)@),
    {
        proof {
            use_type_invariant(&*self);
        }
        if counter_free {
            self.add_ticket(ticket)
        } else {
            TicketId::from(0)
        }
    }

    /// A copy of the ticket stored under `id`, if any.
    pub fn get(&self, id: TicketId) -> (r: Option<Ticket>)
        ensures
            match r {
                Some(t) => get_model(self@, id@) == Some(t@),
                None => get_model(self@, id@) == None::<TicketModel>,
            },
            store_wf(self@),
    {
        proof {
            use_type_invariant(self);
        }
        let key = id.value();
        match self.tickets.get(&key) {
            Some(t) => Some(t.clone()),
            None => None,
        }
    }
}

/// A new store holds no ticket.
pub proof fn lemma_empty_store_has_nothing(id: u64)
    ensures
        get_model(empty_store(), id) == None::<TicketModel>,
        store_wf(empty_store()),
{
}

/// Reading back the identifier that adding a draft returned gives the ticket
/// made from that draft, to do.
pub proof fn lemma_get_after_add(s: StoreModel, d: DraftModel)
    requires
        s.counter < u64::MAX,
    ensures
        get_model(add_model(s, d), next_id(s)) == Some(ticket_from_draft(next_id(s), d)),
{
}

/// Adding a draft leaves every other identifier as it was.
pub proof fn lemma_add_keeps_others(s: StoreModel, d: DraftModel, id: u64)
    requires
        s.counter < u64::MAX,
        id != next_id(s),
    ensures
        get_model(add_model(s, d), id) == get_model(s, id),
{
}

/// The identifier that adding hands out was not in use, and adding keeps a
/// consistent store consistent.
pub proof fn lemma_add_fresh(s: StoreModel, d: DraftModel)
    requires
        store_wf(s),
        s.counter < u64::MAX,
    ensures
        get_model(s, next_id(s)) == None::<TicketModel>,
        store_wf(add_model(s, d)),
{
}

/// The store after adding each draft of `ds` in turn.
pub open spec fn add_all(s: StoreModel, ds: Seq<DraftModel>) -> StoreModel
    decreases ds.len(),
{
    if ds.len() == 0 {
        s
    } else {
        add_model(add_all(s, ds.drop_last()), ds.last())
    }
}

/// A store that received the drafts `ds` one after the other, starting empty,
/// handed out the identifiers 1, 2, ..., `ds.len()` in that order, holds a
/// ticket under exactly those identifiers, and holds the `k`-th draft, to do,
/// under identifier `k`.
pub proof fn lemma_adds_from_empty(ds: Seq<DraftModel>)
    requires
        ds.len() <= u64::MAX,
    ensures
        add_all(empty_store(), ds).counter == ds.len(),
        store_wf(add_all(empty_store(), ds)),
        forall|i: int| 0 <= i < ds.len() ==> #[trigger] next_id(add_all(empty_store(), ds.take(i))) == i + 1,
        forall|k: u64| (#[trigger] get_model(add_all(empty_store(), ds), k) is Some) <==> 1 <= k <= ds.len(),
        forall|k: u64|
            1 <= k <= ds.len() ==> #[trigger] get_model(add_all(empty_store(), ds), k) == Some(
                ticket_from_draft(k, ds[k - 1]),
            ),
    decreases ds.len(),
{
    if ds.len() > 0 {
        let prefix = ds.drop_last();
        lemma_adds_from_empty(prefix);
        let before = add_all(empty_store(), prefix);
        lemma_add_fresh(before, ds.last());
        assert forall|i: int| 0 <= i < ds.len() implies #[trigger] next_id(
            add_all(empty_store(), ds.take(i)),
        ) == i + 1 by {
            lemma_adds_from_empty(ds.take(i));
        }
        assert forall|k: u64| 1 <= k <= ds.len() implies #[trigger] get_model(
            add_all(empty_store(), ds),
            k,
        ) == Some(ticket_from_draft(k, ds[k - 1])) by {
            if k < ds.len() {
                assert(get_model(before, k) == Some(ticket_from_draft(k, prefix[k - 1])));
            }
        }
    }
}

/// Two adds in a row hand out consecutive, hence different, identifiers.
pub proof fn lemma_ids_increase(s: StoreModel, d: DraftModel)
    requires
        s.counter + 1 < u64::MAX,
    ensures
        next_id(add_model(s, d)) == next_id(s) + 1,
{
}

} // verus!
