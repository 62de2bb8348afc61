//! What holds of the service across requests, proved of the step function.

use vstd::prelude::*;
use crate::reply::{json_reply, ticket_json, tickets_json, STATUS_CREATED, STATUS_OK};
use crate::service::{next_state, reply_to, RequestView};
use crate::store::{has_id, is_first_with_id, lemma_position, position};
use crate::ticket::TicketView;

verus! {

/// The tickets after the requests `rs` were served one after another on `s`.
pub open spec fn run(s: Seq<TicketView>, rs: Seq<RequestView>) -> Seq<TicketView>
    decreases rs.len(),
{
    if rs.len() == 0 {
        s
    } else {
        next_state(run(s, rs.drop_last()), rs.last())
    }
}

/// The requests that create the tickets `ts`, in their order.
pub open spec fn creations(ts: Seq<TicketView>) -> Seq<RequestView> {
    ts.map_values(|t: TicketView| RequestView::Create(t))
}

/// A creation is answered with status 201 and the new ticket, and a fetch
/// by the new ticket's id that follows it is answered with that ticket.
///
/// The fetch finds the first ticket that has the id, so this leaves out the
/// states in which an earlier ticket has that id and another author.
pub proof fn law_creation_echo(s: Seq<TicketView>, t: TicketView)
    requires
        position(s, t.id) matches Some(i) ==> s[i].author == t.author,
    ensures
        reply_to(s, RequestView::Create(t)) == json_reply(STATUS_CREATED, ticket_json(t)),
        position(next_state(s, RequestView::Create(t)), t.id) matches Some(i) && next_state(
            s,
            RequestView::Create(t),
        )[i] == t,
        reply_to(next_state(s, RequestView::Create(t)), RequestView::Get(t.id)) == json_reply(
            STATUS_OK,
            ticket_json(t),
        ),
{
    let after = s.push(t);
    lemma_position(s, t.id);
    lemma_position(after, t.id);
    match position(s, t.id) {
        Some(i) => {
            assert(is_first_with_id(s, t.id, i));
            assert forall|j: int| 0 <= j < i implies (#[trigger] after[j]).id != t.id by {
                assert(after[j] == s[j]);
            }
            assert(after[i] == s[i]);
            assert(is_first_with_id(after, t.id, i));
        },
        None => {
            let n = s.len() as int;
            assert forall|j: int| 0 <= j < n implies (#[trigger] after[j]).id != t.id by {
                assert(after[j] == s[j]);
                if s[j].id == t.id {
                    assert(has_id(s, t.id));
                }
            }
            assert(is_first_with_id(after, t.id, n));
        },
    }
}

/// Listing and fetching change nothing, so a second listing, with only reads
/// between it and the first, is answered as the first was.
pub proof fn law_listing_repeatable(s: Seq<TicketView>, reads: Seq<RequestView>)
    requires
        forall|k: int|
            0 <= k < reads.len() ==> (#[trigger] reads[k]) is List || reads[k] is Get,
    ensures
        run(s, reads) == s,
        reply_to(run(s, reads), RequestView::List) == reply_to(s, RequestView::List),
    decreases reads.len(),
{
    if reads.len() > 0 {
        let before = reads.drop_last();
        assert forall|k: int| 0 <= k < before.len() implies (#[trigger] before[k]) is List
            || before[k] is Get by {
            assert(before[k] == reads[k]);
        }
        law_listing_repeatable(s, before);
        assert(reads.last() == reads[reads.len() - 1]);
    }
}

/// An update that finds its ticket keeps the number of tickets and every
/// ticket but the one it found, which it replaces where it stood; the listing
/// that follows shows the new ticket at that place.
pub proof fn law_update_in_place(s: Seq<TicketView>, id: u32, t: TicketView)
    requires
        has_id(s, id),
    ensures
        position(s, id) matches Some(i) && {
            let after = next_state(s, RequestView::Update(id, t));
            &&& is_first_with_id(s, id, i)
            &&& after.len() == s.len()
            &&& after[i] == t
            &&& forall|j: int| 0 <= j < s.len() && j != i ==> after[j] == s[j]
            &&& reply_to(after, RequestView::List) == json_reply(
                STATUS_OK,
                tickets_json(s.update(i, t)),
            )
        },
{
    lemma_position(s, id);
}

/// A deletion that finds its ticket hands that ticket back, keeps the tickets
/// before it where they stood, and moves each ticket behind it up by one
/// place.
pub proof fn law_delete_shifts(s: Seq<TicketView>, id: u32)
    requires
        has_id(s, id),
    ensures
        position(s, id) matches Some(i) && {
            let after = next_state(s, RequestView::Delete(id));
            &&& is_first_with_id(s, id, i)
            &&& reply_to(s, RequestView::Delete(id)) == json_reply(STATUS_OK, ticket_json(s[i]))
            &&& after.len() == s.len() - 1
            &&& forall|j: int| 0 <= j < i ==> after[j] == s[j]
            &&& forall|j: int| i <= j < after.len() ==> after[j] == s[j + 1]
        },
{
    lemma_position(s, id);
}

/// Where a ticket has the id already, creating another with that id does not
/// change what a fetch by the id finds: the earlier ticket, at its place.
pub proof fn law_first_match_wins(s: Seq<TicketView>, t: TicketView)
    requires
        has_id(s, t.id),
    ensures
        position(s, t.id) matches Some(i) && {
            let after = next_state(s, RequestView::Create(t));
            &&& position(after, t.id) == Some(i)
            &&& after[i] == s[i]
            &&& reply_to(after, RequestView::Get(t.id)) == reply_to(s, RequestView::Get(t.id))
        },
{
    let after = s.push(t);
    lemma_position(s, t.id);
    lemma_position(after, t.id);
    let i = position(s, t.id)->0;
    assert(is_first_with_id(s, t.id, i));
    assert forall|j: int| 0 <= j < i implies (#[trigger] after[j]).id != t.id by {
        assert(after[j] == s[j]);
    }
    assert(after[i] == s[i]);
    assert(is_first_with_id(after, t.id, i));
}

/// Creations served one after another, in whatever order they arrive, add
/// their tickets behind those that were there, each once and whole, in the
/// order of arrival.
pub proof fn law_creations_accumulate(s: Seq<TicketView>, ts: Seq<TicketView>)
    ensures
        run(s, creations(ts)) == s + ts,
        run(s, creations(ts)).len() == s.len() + ts.len(),
        forall|k: int| 0 <= k < ts.len() ==> run(s, creations(ts))[s.len() + k] == ts[k],
    decreases ts.len(),
{
    if ts.len() == 0 {
        assert(creations(ts).len() == 0);
        assert(s + ts =~= s);
    } else {
        let rs = creations(ts);
        law_creations_accumulate(s, ts.drop_last());
        assert(rs.drop_last() =~= creations(ts.drop_last()));
        assert(rs.last() == RequestView::Create(ts.last()));
        assert((s + ts.drop_last()).push(ts.last()) =~= s + ts);
    }
}

/// Of creations with ids that differ from each other and from the ids that
/// were there, a fetch by any of the ids finds the ticket that was created
/// with it.
pub proof fn law_distinct_creations_found(s: Seq<TicketView>, ts: Seq<TicketView>, k: int)
    requires
        0 <= k < ts.len(),
        !has_id(s, ts[k].id),
        forall|a: int, b: int|
            0 <= a < b < ts.len() ==> (#[trigger] ts[a]).id != (#[trigger] ts[b]).id,
    ensures
        position(run(s, creations(ts)), ts[k].id) == Some(s.len() + k),
        run(s, creations(ts))[s.len() + k] == ts[k],
{
    law_creations_accumulate(s, ts);
    let all = s + ts;
    let id = ts[k].id;
    let at = s.len() + k;
    assert(all[at] == ts[k]);
    assert forall|j: int| 0 <= j < at implies (#[trigger] all[j]).id != id by {
        if j < s.len() {
            assert(all[j] == s[j]);
            if s[j].id == id {
                assert(has_id(s, id));
            }
        } else {
            assert(all[j] == ts[j - s.len()]);
        }
    }
    assert(is_first_with_id(all, id, at));
    lemma_position(all, id);
}

} // verus!
