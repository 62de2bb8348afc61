//! The service as one step: a state and a request give the next state and
//! the reply. This is where a result of an operation becomes a status and a
//! body, for all five operations alike.

use vstd::prelude::*;
use crate::handlers::{delete_ticket, get_ticket, get_tickets, post_ticket, update_ticket};
use crate::reply::{
    error_json, json_reply, ticket_json, tickets_json, HttpReply, HttpReplyView, STATUS_CREATED,
    STATUS_NOT_FOUND, STATUS_OK,
};
use crate::store::{position, AppState};
use crate::ticket::{not_found, ErrNold, Ticket, TicketView};

verus! {

/// A request to the service, after its method, path and body were read.
#[derive(Debug, PartialEq, Eq)]
pub enum Request {
    /// POST /tickets, with the ticket of the body.
    Create(Ticket),
    /// GET /tickets.
    List,
    /// GET /tickets/{id}.
    Get(u32),
    /// PUT /tickets/{id}, with the ticket of the body.
    Update(u32, Ticket),
    /// DELETE /tickets/{id}.
    Delete(u32),
}

/// What a request is to the contracts.
pub enum RequestView {
    Create(TicketView),
    List,
    Get(u32),
    Update(u32, TicketView),
    Delete(u32),
}

impl View for Request {
    type V = RequestView;

    open spec fn view(&self) -> RequestView {
        match self {
            Request::Create(t) => RequestView::Create(t@),
            Request::List => RequestView::List,
            Request::Get(id) => RequestView::Get(*id),
            Request::Update(id, t) => RequestView::Update(*id, t@),
            Request::Delete(id) => RequestView::Delete(*id),
        }
    }
}

/// The tickets after the request `r` was served on the tickets `s`.
pub open spec fn next_state(s: Seq<TicketView>, r: RequestView) -> Seq<TicketView> {
    match r {
        RequestView::Create(t) => s.push(t),
        RequestView::List => s,
        RequestView::Get(_) => s,
        RequestView::Update(id, t) => match position(s, id) {
            Some(i) => s.update(i, t),
            None => s,
        },
        RequestView::Delete(id) => match position(s, id) {
            Some(i) => s.remove(i),
            None => s,
        },
    }
}

/// The reply to the request `r`, served on the tickets `s`.
pub open spec fn reply_to(s: Seq<TicketView>, r: RequestView) -> HttpReplyView {
    match r {
        RequestView::Create(t) => json_reply(STATUS_CREATED, ticket_json(t)),
        RequestView::List => json_reply(STATUS_OK, tickets_json(s)),
        RequestView::Get(id) => match position(s, id) {
            Some(i) => json_reply(STATUS_OK, ticket_json(s[i])),
            None => not_found_reply(id),
        },
        RequestView::Update(id, t) => match position(s, id) {
            Some(_) => json_reply(STATUS_OK, ticket_json(t)),
            None => not_found_reply(id),
        },
        RequestView::Delete(id) => match position(s, id) {
            Some(i) => json_reply(STATUS_OK, ticket_json(s[i])),
            None => not_found_reply(id),
        },
    }
}

/// The reply to a lookup by an id that no ticket has.
pub open spec fn not_found_reply(id: u32) -> HttpReplyView {
    json_reply(STATUS_NOT_FOUND, error_json(not_found(id)))
}

/// The reply for the result of an operation that hands back a ticket: the
/// ticket with status 200, or the error with status 404.
pub fn respond(result: Result<Ticket, ErrNold>) -> (reply: HttpReply)
    ensures
        reply@ == match result {
            Ok(t) => json_reply(STATUS_OK, ticket_json(t@)),
            Err(e) => json_reply(STATUS_NOT_FOUND, error_json(e@)),
        },
{
    match result {
        Ok(t) => t.respond_to(),
        Err(e) => e.error_response(),
    }
}

/// The reply for the result of an operation that builds its own reply: that
/// reply, or the error with status 404.
pub fn respond_with(result: Result<HttpReply, ErrNold>) -> (reply: HttpReply)
    ensures
        reply@ == match result {
            Ok(r) => r@,
            Err(e) => json_reply(STATUS_NOT_FOUND, error_json(e@)),
        },
{
    match result {
        Ok(r) => r,
        Err(e) => e.error_response(),
    }
}

/// Serves one request on the state.
pub fn serve(request: &Request, data: &mut AppState) -> (reply: HttpReply)
    ensures
        final(data)@ == next_state(old(data)@, request@),
        reply@ == reply_to(old(data)@, request@),
{
    match request {
        Request::Create(t) => post_ticket(t, data),
        Request::List => get_tickets(data),
        Request::Get(id) => respond(get_ticket(*id, data)),
        Request::Update(id, t) => respond_with(update_ticket(*id, t, data)),
        Request::Delete(id) => respond(delete_ticket(*id, data)),
    }
}

} // verus!
