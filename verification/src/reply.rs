//! The HTTP replies of the service: a status, a content type and a body.

use vstd::prelude::*;
use crate::json::{
    array, decimal, encode_str, encode_u32, error_object, json_string, ticket_object,
    write_array, write_error_object, write_ticket_object,
};
use crate::ticket::{ErrNold, ErrNoldView, Ticket, TicketView};

verus! {

/// Status of a reply that carries what was asked for.
pub const STATUS_OK: u16 = 200;

/// Status of the reply to a creation.
pub const STATUS_CREATED: u16 = 201;

/// Status of the reply to a lookup by an id that no ticket has.
pub const STATUS_NOT_FOUND: u16 = 404;

/// A reply, ready to be sent.
#[derive(Debug, PartialEq, Eq)]
pub struct HttpReply {
    pub status: u16,
    pub content_type: String,
    pub body: String,
}

/// What a reply is to the contracts.
pub struct HttpReplyView {
    pub status: u16,
    pub content_type: Seq<char>,
    pub body: Seq<char>,
}

impl View for HttpReply {
    type V = HttpReplyView;

    open spec fn view(&self) -> HttpReplyView {
        HttpReplyView { status: self.status, content_type: self.content_type@, body: self.body@ }
    }
}

/// A reply with the given status and a JSON body. Every reply of the service
/// is one of these.
pub open spec fn json_reply(status: u16, body: Seq<char>) -> HttpReplyView {
    HttpReplyView { status, content_type: "application/json"@, body }
}

/// The JSON text of a ticket.
pub open spec fn ticket_json(t: TicketView) -> Seq<char> {
    ticket_object(decimal(t.id as nat), json_string(t.author))
}

/// The JSON text of an error record.
pub open spec fn error_json(e: ErrNoldView) -> Seq<char> {
    error_object(decimal(e.id as nat), json_string(e.err))
}

/// The JSON text of a sequence of tickets: an array, in the sequence's order.
pub open spec fn tickets_json(s: Seq<TicketView>) -> Seq<char> {
    array(s.map_values(|t: TicketView| ticket_json(t)))
}

impl HttpReply {
    /// Builds the reply with `status` and the JSON text `body`.
    pub fn json(status: u16, body: String) -> (reply: HttpReply)
        ensures
            reply@ == json_reply(status, body@),
    {
        HttpReply { status, content_type: String::from_str("application/json"), body }
    }
}

impl Ticket {
    /// Encodes the ticket as JSON.
    pub fn to_json(&self) -> (text: String)
        ensures
            text@ == ticket_json(self@),
    {
        let id = encode_u32(self.id);
        let author = encode_str(self.author.as_str());
        write_ticket_object(id.as_str(), author.as_str())
    }

    /// The reply that carries this ticket: status 200 and the ticket as JSON.
    pub fn respond_to(self) -> (reply: HttpReply)
        ensures
            reply@ == json_reply(STATUS_OK, ticket_json(self@)),
    {
        let body = self.to_json();
        HttpReply::json(STATUS_OK, body)
    }
}

impl ErrNold {
    /// Encodes the error record as JSON.
    pub fn to_json(&self) -> (text: String)
        ensures
            text@ == error_json(self@),
    {
        let id = encode_u32(self.id);
        let err = encode_str(self.err.as_str());
        write_error_object(id.as_str(), err.as_str())
    }

    /// The status that answers this error: 404, whatever the record holds.
    pub fn status_code(&self) -> (status: u16)
        ensures
            status == STATUS_NOT_FOUND,
    {
        STATUS_NOT_FOUND
    }

    /// The reply that carries this error: status 404 and the record as JSON.
    pub fn error_response(&self) -> (reply: HttpReply)
        ensures
            reply@ == json_reply(STATUS_NOT_FOUND, error_json(self@)),
    {
        let body = self.to_json();
        HttpReply::json(self.status_code(), body)
    }
}

/// Encodes the tickets as a JSON array, in their order.
pub fn tickets_to_json(tickets: &Vec<Ticket>) -> (text: String)
    ensures
        text@ == tickets_json(tickets@.map_values(|t: Ticket| t@)),
{
    let mut items: Vec<String> = Vec::new();
    let mut i: usize = 0;
    while i < tickets.len()
        invariant
            i <= tickets.len(),
            items@.len() == i,
            forall|k: int| 0 <= k < i ==> (#[trigger] items@[k])@ == ticket_json(tickets@[k]@),
        decreases tickets.len() - i,
    {
        let item = tickets[i].to_json();
        items.push(item);
        i = i + 1;
    }
    proof {
        assert(crate::json::texts(items@) == tickets@.map_values(|t: Ticket| t@).map_values(
            |t: TicketView| ticket_json(t),
        ));
    }
    write_array(&items)
}

} // verus!
