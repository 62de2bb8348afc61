use ticket_service::handlers::{delete_ticket, get_ticket, get_tickets, post_ticket, update_ticket};
use ticket_service::reply::{HttpReply, STATUS_CREATED, STATUS_NOT_FOUND, STATUS_OK};
use ticket_service::service::{respond, respond_with, serve, Request};
use ticket_service::store::AppState;
use ticket_service::ticket::{ErrNold, Ticket};

fn ticket(id: u32, author: &str) -> Ticket {
    Ticket { id, author: String::from(author) }
}

fn three() -> AppState {
    AppState::new(vec![ticket(1, "ReLU"), ticket(2, "Bob"), ticket(3, "Eve")])
}

fn json(status: u16, body: &str) -> HttpReply {
    HttpReply { status, content_type: String::from("application/json"), body: String::from(body) }
}

#[test]
fn seeded_state_holds_the_two_tickets() {
    let state = AppState::seeded();
    assert_eq!(state.tickets, vec![ticket(1, "ReLU"), ticket(2, "Bob")]);
}

#[test]
fn find_gives_the_first_place() {
    let state = AppState::new(vec![ticket(5, "a"), ticket(7, "b"), ticket(5, "c")]);
    assert_eq!(state.find(5), Some(0));
    assert_eq!(state.find(7), Some(1));
    assert_eq!(state.find(6), None);
    assert_eq!(AppState::new(Vec::new()).find(0), None);
}

#[test]
fn creation_echo() {
    let mut state = AppState::seeded();
    let reply = post_ticket(&ticket(10, "Ann"), &mut state);
    assert_eq!(reply, json(201, "{\"id\":10,\"author\":\"Ann\"}"));
    assert_eq!(reply.status, STATUS_CREATED);
    assert_eq!(get_ticket(10, &state), Ok(ticket(10, "Ann")));
    assert_eq!(
        serve(&Request::Get(10), &mut state),
        json(200, "{\"id\":10,\"author\":\"Ann\"}")
    );
}

#[test]
fn creation_appends_at_the_end() {
    let mut state = AppState::seeded();
    post_ticket(&ticket(0, ""), &mut state);
    assert_eq!(state.tickets, vec![ticket(1, "ReLU"), ticket(2, "Bob"), ticket(0, "")]);
}

#[test]
fn listing_twice_gives_the_same() {
    let mut state = three();
    let first = get_tickets(&state);
    let second = get_tickets(&state);
    assert_eq!(first, second);
    assert_eq!(
        first,
        json(
            200,
            "[{\"id\":1,\"author\":\"ReLU\"},{\"id\":2,\"author\":\"Bob\"},{\"id\":3,\"author\":\"Eve\"}]"
        )
    );
    let _ = serve(&Request::Get(2), &mut state);
    let _ = serve(&Request::Get(999), &mut state);
    assert_eq!(serve(&Request::List, &mut state), first);
    assert_eq!(state.tickets, three().tickets);
}

#[test]
fn listing_of_no_ticket_and_of_one() {
    let empty = AppState::new(Vec::new());
    assert_eq!(get_tickets(&empty), json(200, "[]"));
    let one = AppState::new(vec![ticket(4294967295, "x")]);
    assert_eq!(get_tickets(&one), json(200, "[{\"id\":4294967295,\"author\":\"x\"}]"));
}

#[test]
fn not_found_shape() {
    let mut state = AppState::seeded();
    let result = get_ticket(999, &state);
    assert_eq!(result, Err(ErrNold { id: 999, err: String::from("ticket not found") }));
    let reply = serve(&Request::Get(999), &mut state);
    assert_eq!(reply, json(404, "{\"id\":999,\"err\":\"ticket not found\"}"));
    assert_eq!(reply.status, STATUS_NOT_FOUND);
    assert_eq!(state.tickets, AppState::seeded().tickets);
}

#[test]
fn update_preserves_position_changes_content() {
    let mut state = AppState::seeded();
    let result = update_ticket(1, &ticket(1, "X"), &mut state);
    assert_eq!(result, Ok(json(200, "{\"id\":1,\"author\":\"X\"}")));
    assert_eq!(state.tickets, vec![ticket(1, "X"), ticket(2, "Bob")]);
    assert_eq!(
        get_tickets(&state),
        json(200, "[{\"id\":1,\"author\":\"X\"},{\"id\":2,\"author\":\"Bob\"}]")
    );
}

#[test]
fn update_may_change_the_stored_id() {
    let mut state = three();
    let result = update_ticket(2, &ticket(9, "Zed"), &mut state);
    assert_eq!(result, Ok(json(200, "{\"id\":9,\"author\":\"Zed\"}")));
    assert_eq!(state.tickets, vec![ticket(1, "ReLU"), ticket(9, "Zed"), ticket(3, "Eve")]);
    assert_eq!(get_ticket(2, &state), Err(ErrNold::not_found(2)));
    assert_eq!(get_ticket(9, &state), Ok(ticket(9, "Zed")));
}

#[test]
fn update_of_an_absent_id_changes_nothing() {
    let mut state = AppState::seeded();
    let result = update_ticket(7, &ticket(7, "X"), &mut state);
    assert_eq!(result, Err(ErrNold { id: 7, err: String::from("ticket not found") }));
    assert_eq!(state.tickets, AppState::seeded().tickets);
    assert_eq!(
        serve(&Request::Update(7, ticket(7, "X")), &mut state),
        json(404, "{\"id\":7,\"err\":\"ticket not found\"}")
    );
}

#[test]
fn update_replaces_only_the_first_of_equal_ids() {
    let mut state = AppState::new(vec![ticket(1, "a"), ticket(1, "b")]);
    let _ = update_ticket(1, &ticket(1, "c"), &mut state);
    assert_eq!(state.tickets, vec![ticket(1, "c"), ticket(1, "b")]);
}

#[test]
fn delete_shifts_remaining_elements() {
    let mut state = three();
    let result = delete_ticket(2, &mut state);
    assert_eq!(result, Ok(ticket(2, "Bob")));
    assert_eq!(state.tickets, vec![ticket(1, "ReLU"), ticket(3, "Eve")]);
    assert_eq!(
        get_tickets(&state),
        json(200, "[{\"id\":1,\"author\":\"ReLU\"},{\"id\":3,\"author\":\"Eve\"}]")
    );
}

#[test]
fn delete_of_the_first_and_of_the_last() {
    let mut state = three();
    assert_eq!(
        serve(&Request::Delete(1), &mut state),
        json(200, "{\"id\":1,\"author\":\"ReLU\"}")
    );
    assert_eq!(state.tickets, vec![ticket(2, "Bob"), ticket(3, "Eve")]);
    assert_eq!(delete_ticket(3, &mut state), Ok(ticket(3, "Eve")));
    assert_eq!(state.tickets, vec![ticket(2, "Bob")]);
    assert_eq!(delete_ticket(2, &mut state), Ok(ticket(2, "Bob")));
    assert_eq!(state.tickets, Vec::new());
}

#[test]
fn delete_of_an_absent_id_changes_nothing() {
    let mut state = AppState::seeded();
    assert_eq!(delete_ticket(3, &mut state), Err(ErrNold::not_found(3)));
    assert_eq!(state.tickets, AppState::seeded().tickets);
    assert_eq!(
        serve(&Request::Delete(3), &mut state),
        json(404, "{\"id\":3,\"err\":\"ticket not found\"}")
    );
}

#[test]
fn delete_removes_only_the_first_of_equal_ids() {
    let mut state = AppState::new(vec![ticket(1, "a"), ticket(2, "m"), ticket(1, "b")]);
    assert_eq!(delete_ticket(1, &mut state), Ok(ticket(1, "a")));
    assert_eq!(state.tickets, vec![ticket(2, "m"), ticket(1, "b")]);
    assert_eq!(get_ticket(1, &state), Ok(ticket(1, "b")));
}

#[test]
fn duplicate_id_tie_break() {
    let mut state = AppState::seeded();
    let reply = serve(&Request::Create(ticket(1, "Other")), &mut state);
    assert_eq!(reply, json(201, "{\"id\":1,\"author\":\"Other\"}"));
    assert_eq!(state.tickets.len(), 3);
    assert_eq!(get_ticket(1, &state), Ok(ticket(1, "ReLU")));
    assert_eq!(
        serve(&Request::Get(1), &mut state),
        json(200, "{\"id\":1,\"author\":\"ReLU\"}")
    );
}

#[test]
fn creations_one_after_another_are_all_there_once() {
    let mut state = AppState::new(Vec::new());
    let n: u32 = 50;
    let mut id: u32 = 0;
    while id < n {
        let _ = post_ticket(&ticket(id, &format!("author {}", id)), &mut state);
        id += 1;
    }
    assert_eq!(state.tickets.len(), 50);
    let mut id: u32 = 0;
    while id < n {
        let with_id = state.tickets.iter().filter(|t| t.id == id).count();
        assert_eq!(with_id, 1);
        assert_eq!(get_ticket(id, &state), Ok(ticket(id, &format!("author {}", id))));
        id += 1;
    }
}

#[test]
fn creations_under_a_lock_in_another_order() {
    let shared = std::sync::Arc::new(std::sync::Mutex::new(AppState::new(Vec::new())));
    let n: u32 = 64;
    let mut id: u32 = n;
    // Each creation takes the lock for itself; they arrive from the highest id down.
    while id > 0 {
        id -= 1;
        let handle = std::sync::Arc::clone(&shared);
        let mut state = handle.lock().unwrap();
        let _ = post_ticket(&ticket(id, "w"), &mut state);
    }
    let state = shared.lock().unwrap();
    assert_eq!(state.tickets.len(), 64);
    let mut id: u32 = 0;
    while id < n {
        assert_eq!(state.tickets.iter().filter(|t| t.id == id).count(), 1);
        assert_eq!(state.tickets[(n - 1 - id) as usize], ticket(id, "w"));
        id += 1;
    }
}

#[test]
fn respond_maps_results_to_replies() {
    assert_eq!(respond(Ok(ticket(3, "Eve"))), json(200, "{\"id\":3,\"author\":\"Eve\"}"));
    assert_eq!(
        respond(Err(ErrNold::not_found(8))),
        json(404, "{\"id\":8,\"err\":\"ticket not found\"}")
    );
    assert_eq!(respond_with(Ok(json(201, "x"))), json(201, "x"));
    assert_eq!(
        respond_with(Err(ErrNold::not_found(0))),
        json(404, "{\"id\":0,\"err\":\"ticket not found\"}")
    );
}

#[test]
fn ticket_and_error_replies() {
    let reply = ticket(2, "Bob").respond_to();
    assert_eq!(reply.status, STATUS_OK);
    assert_eq!(reply.content_type, "application/json");
    assert_eq!(reply.body, "{\"id\":2,\"author\":\"Bob\"}");
    let e = ErrNold { id: 5, err: String::from("gone") };
    assert_eq!(e.status_code(), 404);
    assert_eq!(e.error_response(), json(404, "{\"id\":5,\"err\":\"gone\"}"));
}

#[test]
fn clone_copies_both_fields() {
    let t = ticket(77, "Ann");
    assert_eq!(t.clone(), ticket(77, "Ann"));
}
