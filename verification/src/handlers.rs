//! The five operations of the service, one function each.
//!
//! Each takes the state for the length of the call: the two that only read
//! take it shared, the three that write take it exclusively. An operation
//! that fails leaves the state as it was.

use vstd::prelude::*;
use crate::reply::{
    json_reply, ticket_json, tickets_json, tickets_to_json, HttpReply, STATUS_CREATED, STATUS_OK,
};
use crate::store::{position, AppState};
use crate::ticket::{not_found, ErrNold, Ticket};

verus! {

/// Replaces the first ticket that has the id `id` by a copy of `req`, at the
/// same place. The id of `req` is stored as it is, also where it differs from
/// `id`. The reply carries the new ticket.
///
/// Fails, with the state unchanged, exactly when no ticket has the id `id`.
pub fn update_ticket(id: u32, req: &Ticket, data: &mut AppState) -> (result: Result<
    HttpReply,
    ErrNold,
>)
    ensures
        match position(old(data)@, id) {
            Some(i) => {
                &&& final(data)@ == old(data)@.update(i, req@)
                &&& result matches Ok(reply)
                &&& reply@ == json_reply(STATUS_OK, ticket_json(req@))
            },
            None => {
                &&& final(data)@ == old(data)@
                &&& result matches Err(e)
                &&& e@ == not_found(id)
            },
        },
{
    let new_ticket = req.clone();
    match data.find(id) {
        Some(i) => {
            let body = new_ticket.to_json();
            data.tickets[i] = new_ticket;
            assert(data@ =~= old(data)@.update(i as int, req@));
            Ok(HttpReply::json(STATUS_OK, body))
        },
        None => Err(ErrNold::not_found(id)),
    }
}

/// Copies out the first ticket that has the id `id`.
///
/// Fails exactly when no ticket has the id `id`.
pub fn get_ticket(id: u32, data: &AppState) -> (result: Result<Ticket, ErrNold>)
    ensures
        match position(data@, id) {
            Some(i) => result matches Ok(t) && t@ == data@[i],
            None => result matches Err(e) && e@ == not_found(id),
        },
{
    match data.find(id) {
        Some(i) => Ok(data.tickets[i].clone()),
        None => Err(ErrNold::not_found(id)),
    }
}

/// Takes out the first ticket that has the id `id`; the tickets behind it
/// move up by one place, in their order.
///
/// Fails, with the state unchanged, exactly when no ticket has the id `id`.
pub fn delete_ticket(id: u32, data: &mut AppState) -> (result: Result<Ticket, ErrNold>)
    ensures
        match position(old(data)@, id) {
            Some(i) => {
                &&& final(data)@ == old(data)@.remove(i)
                &&& result matches Ok(t)
                &&& t@ == old(data)@[i]
            },
            None => {
                &&& final(data)@ == old(data)@
                &&& result matches Err(e)
                &&& e@ == not_found(id)
            },
        },
{
    match data.find(id) {
        Some(i) => {
            let deleted_ticket = data.tickets.remove(i);
            assert(data@ =~= old(data)@.remove(i as int));
            Ok(deleted_ticket)
        },
        None => Err(ErrNold::not_found(id)),
    }
}

/// Appends a copy of `req` behind all tickets, whatever ids they have, and
/// replies with status 201 and the new ticket.
pub fn post_ticket(req: &Ticket, data: &mut AppState) -> (reply: HttpReply)
    ensures
        final(data)@ == old(data)@.push(req@),
        reply@ == json_reply(STATUS_CREATED, ticket_json(req@)),
{
    let new_ticket = req.clone();
    let response = new_ticket.to_json();
    data.tickets.push(new_ticket);
    assert(data@ =~= old(data)@.push(req@));
    HttpReply::json(STATUS_CREATED, response)
}

/// Replies with all tickets, in their order.
pub fn get_tickets(data: &AppState) -> (reply: HttpReply)
    ensures
        reply@ == json_reply(STATUS_OK, tickets_json(data@)),
{
    let response = tickets_to_json(&data.tickets);
    HttpReply::json(STATUS_OK, response)
}

} // verus!
