//! The collection of tickets, and the lookup by id that the operations share.
//!
//! Tickets stand in insertion order. Ids are not unique: a lookup by id means
//! the first ticket, in that order, that has the id.

use vstd::prelude::*;
use crate::ticket::{Ticket, TicketView};

verus! {

/// The state of the service: its tickets, in insertion order.
pub struct AppState {
    pub tickets: Vec<Ticket>,
}

impl View for AppState {
    type V = Seq<TicketView>;

    open spec fn view(&self) -> Seq<TicketView> {
        self.tickets@.map_values(|t: Ticket| t@)
    }
}

/// Some ticket of `s` has the id `id`.
pub open spec fn has_id(s: Seq<TicketView>, id: u32) -> bool {
    exists|i: int| 0 <= i < s.len() && (#[trigger] s[i]).id == id
}

/// `i` is the place of the first ticket of `s` that has the id `id`.
pub open spec fn is_first_with_id(s: Seq<TicketView>, id: u32, i: int) -> bool {
    &&& 0 <= i < s.len()
    &&& s[i].id == id
    &&& forall|j: int| 0 <= j < i ==> (#[trigger] s[j]).id != id
}

/// The place of the first ticket of `s` that has the id `id`, if there is one.
pub open spec fn position(s: Seq<TicketView>, id: u32) -> Option<int> {
    if has_id(s, id) {
        Some(choose|i: int| is_first_with_id(s, id, i))
    } else {
        None
    }
}

/// `position` is the one first place: it is `Some(i)` exactly for the `i` that
/// `is_first_with_id` accepts, and `None` exactly when no ticket has the id.
pub proof fn lemma_position(s: Seq<TicketView>, id: u32)
    ensures
        has_id(s, id) <==> position(s, id) is Some,
        forall|i: int| is_first_with_id(s, id, i) <==> position(s, id) == Some(i),
{
    if has_id(s, id) {
        let w = choose|i: int| 0 <= i < s.len() && (#[trigger] s[i]).id == id;
        lemma_first_exists(s, id, w);
        let c = choose|i: int| is_first_with_id(s, id, i);
        assert(is_first_with_id(s, id, c));
        assert forall|i: int| is_first_with_id(s, id, i) implies i == c by {
            if i < c {
                assert(s[i].id != id);
            } else if c < i {
                assert(s[c].id != id);
            }
        }
    } else {
        assert forall|i: int| !is_first_with_id(s, id, i) by {
            if 0 <= i < s.len() {
                assert(s[i].id != id);
            }
        }
    }
}

/// Below any place that holds the id there is a first one.
proof fn lemma_first_exists(s: Seq<TicketView>, id: u32, w: int)
    requires
        0 <= w < s.len(),
        s[w].id == id,
    ensures
        exists|i: int| is_first_with_id(s, id, i),
    decreases w,
{
    if forall|j: int| 0 <= j < w ==> (#[trigger] s[j]).id != id {
        assert(is_first_with_id(s, id, w));
    } else {
        let j = choose|j: int| 0 <= j < w && (#[trigger] s[j]).id == id;
        lemma_first_exists(s, id, j);
    }
}

impl AppState {
    /// A state that holds the given tickets, in their order.
    pub fn new(tickets: Vec<Ticket>) -> (state: AppState)
        ensures
            state@ == tickets@.map_values(|t: Ticket| t@),
    {
        AppState { tickets }
    }

    /// The state in which the service starts: two tickets, 1 by ReLU and 2 by Bob.
    pub fn seeded() -> (state: AppState)
        ensures
            state@ == seed(),
    {
        let mut tickets: Vec<Ticket> = Vec::new();
        tickets.push(Ticket { id: 1, author: String::from_str("ReLU") });
        tickets.push(Ticket { id: 2, author: String::from_str("Bob") });
        let state = AppState { tickets };
        assert(state@ =~= seed());
        state
    }

    /// Scans from the front for the first ticket that has the id `id`.
    pub fn find(&self, id: u32) -> (found: Option<usize>)
        ensures
            match found {
                Some(i) => i < self.tickets.len() && position(self@, id) == Some(i as int),
                None => position(self@, id) is None,
            },
    {
        let mut i: usize = 0;
        while i < self.tickets.len()
            invariant
                i <= self.tickets.len(),
                forall|j: int| 0 <= j < i ==> (#[trigger] self@[j]).id != id,
            decreases self.tickets.len() - i,
        {
            if self.tickets[i].id == id {
                proof {
                    assert(self@[i as int].id == id);
                    assert(is_first_with_id(self@, id, i as int));
                    lemma_position(self@, id);
                }
                return Some(i);
            }
            i = i + 1;
        }
        proof {
            lemma_position(self@, id);
        }
        None
    }
}

/// The tickets of a fresh service.
pub open spec fn seed() -> Seq<TicketView> {
    seq![
        TicketView { id: 1, author: "ReLU"@ },
        TicketView { id: 2, author: "Bob"@ },
    ]
}

} // verus!
