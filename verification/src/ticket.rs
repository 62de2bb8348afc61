//! The two records of the service: a ticket, and the error that answers a
//! lookup for an id that no ticket has.

use vstd::prelude::*;

verus! {

/// A ticket. The id comes from the client and need not be unique.
#[derive(Debug, PartialEq, Eq)]
pub struct Ticket {
    pub id: u32,
    pub author: String,
}

/// What a ticket is to the contracts: its id and the characters of its author.
pub struct TicketView {
    pub id: u32,
    pub author: Seq<char>,
}

impl View for Ticket {
    type V = TicketView;

    open spec fn view(&self) -> TicketView {
        TicketView { id: self.id, author: self.author@ }
    }
}

impl Clone for Ticket {
    /// A copy with its own storage for the author.
    fn clone(&self) -> (copy: Self)
        ensures
            copy == *self,
    {
        Ticket { id: self.id, author: self.author.clone() }
    }
}

/// The error of a lookup by id that found no ticket.
#[derive(Debug, PartialEq, Eq)]
pub struct ErrNold {
    pub id: u32,
    pub err: String,
}

/// What an error record is to the contracts.
pub struct ErrNoldView {
    pub id: u32,
    pub err: Seq<char>,
}

impl View for ErrNold {
    type V = ErrNoldView;

    open spec fn view(&self) -> ErrNoldView {
        ErrNoldView { id: self.id, err: self.err@ }
    }
}

/// The error record for a requested id that is absent: the id, and a fixed message.
pub open spec fn not_found(id: u32) -> ErrNoldView {
    ErrNoldView { id, err: "ticket not found"@ }
}

impl ErrNold {
    /// Builds the error record for the requested `id`.
    pub fn not_found(id: u32) -> (e: ErrNold)
        ensures
            e@ == not_found(id),
    {
        ErrNold { id, err: String::from_str("ticket not found") }
    }
}

} // verus!
