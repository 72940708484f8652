//! Ticket identifiers, ordered by their number.

use std::cmp::Ordering;
use vstd::prelude::*;
use vstd::std_specs::cmp::PartialOrdSpec;

use crate::data::{decimal, u64_to_decimal};

verus! {

/// The identifier of a ticket in a store.
#[derive(Clone, Copy, Debug, PartialEq, Eq, Structural, Ord, Hash)]
pub struct TicketId(u64);

impl View for TicketId {
    type V = u64;

    closed spec fn view(&self) -> u64 {
        self.0
    }
}

impl TicketId {
    /// The number inside the identifier.
    pub fn value(&self) -> (v: u64)
        ensures
            v == self@,
    {
        self.0
    }

    /// The identifier in decimal, as written by `Display`.
    pub fn to_string(&self) -> (s: String)
        ensures
            s@ == decimal(self@ as nat),
    {
        u64_to_decimal(self.0)
    }
}

impl From<u64> for TicketId {
    fn from(value: u64) -> (id: Self)
        ensures
            id@ == value,
    {
        TicketId(value)
    }
}

impl vstd::std_specs::convert::FromSpecImpl<u64> for TicketId {
    open spec fn obeys_from_spec() -> bool {
        true
    }

    closed spec fn from_spec(v: u64) -> Self {
        TicketId(v)
    }
}

/// How two numbers compare.
pub open spec fn number_order(a: u64, b: u64) -> Option<Ordering> {
    if a < b {
        Some(Ordering::Less)
    } else if a == b {
        Some(Ordering::Equal)
    } else {
        Some(Ordering::Greater)
    }
}

impl PartialOrd for TicketId {
    fn partial_cmp(&self, other: &TicketId) -> (r: Option<Ordering>) {
        if self.0 < other.0 {
            Some(Ordering::Less)
        } else if self.0 == other.0 {
            Some(Ordering::Equal)
        } else {
            Some(Ordering::Greater)
        }
    }
}

impl vstd::std_specs::cmp::PartialOrdSpecImpl for TicketId {
    open spec fn obeys_partial_cmp_spec() -> bool {
        true
    }

    closed spec fn partial_cmp_spec(&self, other: &TicketId) -> Option<Ordering> {
        number_order(self.0, other.0)
    }
}

/// Identifiers are equal exactly when their numbers are, and compare as
/// their numbers do: less exactly when the number is smaller, equal exactly
/// when it is the same, greater exactly when it is larger.
pub proof fn lemma_id_order(a: TicketId, b: TicketId)
    ensures
        (a == b) <==> (a@ == b@),
        a.partial_cmp_spec(&b) == number_order(a@, b@),
        (a.partial_cmp_spec(&b) == Some(Ordering::Less)) <==> a@ < b@,
        (a.partial_cmp_spec(&b) == Some(Ordering::Equal)) <==> a@ == b@,
        (a.partial_cmp_spec(&b) == Some(Ordering::Greater)) <==> a@ > b@,
        a.partial_cmp_spec(&b) is Some,
{
}

} // verus!
