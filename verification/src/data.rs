//! Tickets, their identifiers and status, drafts, and the flat record that is
//! sent to clients as JSON.

use vstd::prelude::*;

use crate::fields::{valid_description, valid_title, TicketDescription, TicketTitle};
pub use crate::ticket_id::TicketId;

verus! {

/// The ASCII digit for `d`, which is below ten.
pub open spec fn digit_char(d: nat) -> char {
    ((d + 48) as u32) as char
}

/// The decimal notation of `n`: no sign, no leading zeros.
pub open spec fn decimal(n: nat) -> Seq<char>
    decreases n,
{
    if n < 10 {
        seq![digit_char(n)]
    } else {
        decimal(n / 10).push(digit_char(n % 10))
    }
}

/// `u64`'s `Display` (through `ToString::to_string`), which writes the number
/// in decimal. Its contract claims the output is exactly the decimal digits of
/// `n`, most significant first, with no sign and no leading zeros.
#[verifier::external_body]
pub(crate) fn u64_to_decimal(n: u64) -> (s: String)
    ensures
        s@ == decimal(n as nat),
{
    n.to_string()
}

/// Where a ticket stands.
#[derive(Clone, Copy, Debug, PartialEq, Eq, Structural)]
pub enum Status {
    ToDo,
    InProgress,
    Done,
}

/// The name of a status, as written by `Display` (the variant's name).
pub open spec fn status_name(s: Status) -> Seq<char> {
    match s {
        Status::ToDo => "ToDo"@,
        Status::InProgress => "InProgress"@,
        Status::Done => "Done"@,
    }
}

impl Status {
    /// The status's name, as written by `Display`.
    pub fn to_string(&self) -> (s: String)
        ensures
            s@ == status_name(*self),
    {
        match self {
            Status::ToDo => String::from_str("ToDo"),
            Status::InProgress => String::from_str("InProgress"),
            Status::Done => String::from_str("Done"),
        }
    }
}

/// What a ticket is, mathematically.
pub struct TicketModel {
    pub id: u64,
    pub title: Seq<char>,
    pub description: Seq<char>,
    pub status: Status,
}

/// A ticket held by a store.
#[derive(Debug, PartialEq)]
pub struct Ticket {
    pub id: TicketId,
    pub title: TicketTitle,
    pub description: TicketDescription,
    pub status: Status,
}

impl View for Ticket {
    type V = TicketModel;

    open spec fn view(&self) -> TicketModel {
        TicketModel {
            id: self.id@,
            title: self.title@,
            description: self.description@,
            status: self.status,
        }
    }
}

impl Clone for Ticket {
    fn clone(&self) -> (c: Self)
        ensures
            c@ == self@,
    {
        Ticket {
            id: self.id,
            title: self.title.clone(),
            description: self.description.clone(),
            status: self.status,
        }
    }
}

/// What a draft is, mathematically.
pub struct DraftModel {
    pub title: Seq<char>,
    pub description: Seq<char>,
}

/// The fields a client gives to open a ticket.
#[derive(Debug, PartialEq, Eq)]
pub struct TicketDraft {
    pub title: TicketTitle,
    pub description: TicketDescription,
}

impl View for TicketDraft {
    type V = DraftModel;

    open spec fn view(&self) -> DraftModel {
        DraftModel { title: self.title@, description: self.description@ }
    }
}

impl Clone for TicketDraft {
    fn clone(&self) -> (c: Self)
        ensures
            c@ == self@,
    {
        TicketDraft { title: self.title.clone(), description: self.description.clone() }
    }
}

/// What the flat record is, mathematically.
pub struct JsonModel {
    pub id: i64,
    pub title: Seq<char>,
    pub description: Seq<char>,
    pub status: Seq<char>,
}

/// A ticket as plain fields, the shape that is exchanged as JSON.
#[derive(Debug, PartialEq, Eq)]
pub struct TicketJson {
    pub id: i64,
    pub title: String,
    pub description: String,
    pub status: String,
}

impl View for TicketJson {
    type V = JsonModel;

    open spec fn view(&self) -> JsonModel {
        JsonModel {
            id: self.id,
            title: self.title@,
            description: self.description@,
            status: self.status@,
        }
    }
}

impl Clone for TicketJson {
    fn clone(&self) -> (c: Self)
        ensures
            c@ == self@,
    {
        TicketJson {
            id: self.id,
            title: self.title.clone(),
            description: self.description.clone(),
            status: self.status.clone(),
        }
    }
}

/// The flat record of a ticket: the identifier reinterpreted as an `i64`
/// (an identifier above `i64::MAX` wraps to a negative number, as `as` does),
/// the texts, and the status's name.
pub open spec fn json_of(t: TicketModel) -> JsonModel {
    JsonModel {
        id: t.id as i64,
        title: t.title,
        description: t.description,
        status: status_name(t.status),
    }
}

/// The record's identifier is the ticket's number read as a signed 64-bit
/// integer: the same number up to `i64::MAX`, and that number minus 2^64
/// above it; reading it back as a `u64` gives the ticket's number.
pub proof fn lemma_json_id(t: TicketModel)
    ensures
        t.id <= i64::MAX ==> json_of(t).id == t.id,
        t.id > i64::MAX ==> json_of(t).id == t.id - 0x1_0000_0000_0000_0000,
        json_of(t).id as u64 == t.id,
{
    let x: u64 = t.id;
    assert(x <= 0x7fff_ffff_ffff_ffff ==> (x as i64) as int == x as int) by (bit_vector);
    assert(x > 0x7fff_ffff_ffff_ffff ==> (x as i64) as int == x as int - 0x1_0000_0000_0000_0000)
        by (bit_vector);
    assert(((x as i64) as u64) == x) by (bit_vector);
}

/// The draft that a flat record describes.
pub open spec fn draft_of_json(j: JsonModel) -> DraftModel {
    DraftModel { title: j.title, description: j.description }
}

impl TicketJson {
    /// Flattens a ticket.
    pub fn new(ticket: Ticket) -> (j: TicketJson)
        ensures
            j@ == json_of(ticket@),
    {
        TicketJson {
            id: ticket.id.value() as i64,
            title: ticket.title.to_string(),
            description: ticket.description.to_string(),
            status: ticket.status.to_string(),
        }
    }

    /// The draft that this record describes. The title and description must
    /// be acceptable ones.
    pub fn draft(self) -> (d: TicketDraft)
        requires
            valid_title(self.title@),
            valid_description(self.description@),
        ensures
            d@ == draft_of_json(self@),
    {
        TicketDraft {
            title: TicketTitle::try_from(self.title.as_str()).unwrap(),
            description: TicketDescription::try_from(self.description.as_str()).unwrap(),
        }
    }
}

/// Flattening a ticket and reading a draft back from the record gives the
/// ticket's own title and description; the record's texts are always
/// acceptable to `draft`.
pub proof fn lemma_json_draft_roundtrip(t: TicketModel)
    requires
        valid_title(t.title),
        valid_description(t.description),
    ensures
        valid_title(json_of(t).title),
        valid_description(json_of(t).description),
        draft_of_json(json_of(t)) == (DraftModel { title: t.title, description: t.description }),
{
}

} // verus!
