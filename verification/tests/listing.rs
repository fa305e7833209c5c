use book_manager::book::{Book, BookList};
use book_manager::http::{Response, Status};
use book_manager::listing::{book_list, health_check, ListAction, ListEvent, ListState, BOOKS_QUERY};
use chrono::{NaiveDate, NaiveDateTime};

fn at(year: i32, month: u32, day: u32, hour: u32, minute: u32, second: u32) -> NaiveDateTime {
    NaiveDate::from_ymd_opt(year, month, day).unwrap().and_hms_opt(hour, minute, second).unwrap()
}

fn book(id: i64, title: &str) -> Book {
    Book {
        id,
        title: title.to_string(),
        author: format!("author of {}", title),
        publisher: "Example Press".to_string(),
        isbn: format!("978-0-00-00000{}-0", id),
        comment: String::new(),
        created_at: at(2022, 4, 1, 9, 30, 0),
        updated_at: at(2022, 4, 2, 18, 0, 5),
    }
}

/// What a database does while one request is served.
#[derive(Clone)]
enum Backend {
    Unreachable,
    Failing,
    Table(Vec<Book>),
}

/// Serves one request against `db` and returns every action that was asked
/// for, in order, with the answer last.
fn serve(db: &Backend) -> Vec<ListAction> {
    let mut asked = Vec::new();
    let mut state = ListState::Idle;
    let mut event = ListEvent::Requested;
    for _ in 0..8 {
        let (next, action) = book_list(state, event);
        state = next;
        asked.push(action.clone());
        event = match action {
            ListAction::Acquire => match db {
                Backend::Unreachable => ListEvent::AcquireFailed,
                _ => ListEvent::Acquired,
            },
            ListAction::Fetch { statement } => match db {
                Backend::Table(rows) if statement == "select * from books" => {
                    ListEvent::Fetched(rows.clone())
                }
                _ => ListEvent::FetchFailed,
            },
            ListAction::Reply(_) | ListAction::Halt => return asked,
        };
    }
    panic!("the request was not answered");
}

fn answer(db: &Backend) -> Response {
    match serve(db).pop() {
        Some(ListAction::Reply(response)) => response,
        other => panic!("no answer: {:?}", other),
    }
}

#[test]
fn health_check_answers_no_content_without_a_body() {
    let response = health_check();
    assert_eq!(response.status, Status::NoContent);
    assert_eq!(response.body, None);
    assert_eq!(response.status.code(), 204);
}

#[test]
fn health_check_answers_the_same_every_time() {
    assert_eq!(health_check(), health_check());
}

#[test]
fn status_codes_are_200_204_500() {
    assert_eq!(Status::Success.code(), 200);
    assert_eq!(Status::NoContent.code(), 204);
    assert_eq!(Status::InternalServerError.code(), 500);
}

#[test]
fn the_statement_selects_every_column_of_every_row() {
    assert_eq!(BOOKS_QUERY, "select * from books");
}

#[test]
fn a_request_first_asks_for_a_connection() {
    let (state, action) = book_list(ListState::Idle, ListEvent::Requested);
    assert_eq!(state, ListState::Acquiring);
    assert_eq!(action, ListAction::Acquire);
}

#[test]
fn a_connection_is_followed_by_the_fixed_statement() {
    let (state, action) = book_list(ListState::Acquiring, ListEvent::Acquired);
    assert_eq!(state, ListState::Querying);
    assert_eq!(action, ListAction::Fetch { statement: "select * from books" });
}

#[test]
fn rows_are_answered_with_200_and_the_records() {
    let rows = vec![book(1, "Dune"), book(2, "Emma")];
    let (state, action) = book_list(ListState::Querying, ListEvent::Fetched(rows.clone()));
    assert_eq!(state, ListState::Finished);
    assert_eq!(
        action,
        ListAction::Reply(Response { status: Status::Success, body: Some(BookList(rows)) })
    );
}

#[test]
fn a_table_with_n_rows_is_listed_as_n_records_in_order() {
    let rows = vec![book(3, "Ulysses"), book(1, "Dune"), book(2, "Emma")];
    let response = answer(&Backend::Table(rows.clone()));
    assert_eq!(response.status.code(), 200);
    let BookList(listed) = response.body.expect("a body");
    assert_eq!(listed.len(), 3);
    assert_eq!(listed, rows);
    assert_eq!(listed[0].id, 3);
    assert_eq!(listed[0].title, "Ulysses");
    assert_eq!(listed[0].author, "author of Ulysses");
    assert_eq!(listed[0].publisher, "Example Press");
    assert_eq!(listed[0].isbn, "978-0-00-000003-0");
    assert_eq!(listed[0].comment, "");
    assert_eq!(listed[0].created_at, at(2022, 4, 1, 9, 30, 0));
    assert_eq!(listed[0].updated_at, at(2022, 4, 2, 18, 0, 5));
}

#[test]
fn an_empty_table_is_listed_as_no_records_with_success() {
    let response = answer(&Backend::Table(Vec::new()));
    assert_eq!(response.status, Status::Success);
    assert_eq!(response.body, Some(BookList(Vec::new())));
}

#[test]
fn a_served_request_asks_for_three_things_in_order() {
    let rows = vec![book(7, "Persuasion")];
    let asked = serve(&Backend::Table(rows.clone()));
    assert_eq!(
        asked,
        vec![
            ListAction::Acquire,
            ListAction::Fetch { statement: "select * from books" },
            ListAction::Reply(Response { status: Status::Success, body: Some(BookList(rows)) }),
        ]
    );
}

#[test]
fn an_unreachable_database_is_answered_with_500_and_no_body() {
    let asked = serve(&Backend::Unreachable);
    assert_eq!(
        asked,
        vec![
            ListAction::Acquire,
            ListAction::Reply(Response { status: Status::InternalServerError, body: None }),
        ]
    );
    assert_eq!(answer(&Backend::Unreachable).status.code(), 500);
}

#[test]
fn a_failing_statement_is_answered_with_500_and_no_body() {
    let (state, action) = book_list(ListState::Querying, ListEvent::FetchFailed);
    assert_eq!(state, ListState::Finished);
    assert_eq!(
        action,
        ListAction::Reply(Response { status: Status::InternalServerError, body: None })
    );
    assert_eq!(answer(&Backend::Failing), answer(&Backend::Unreachable));
}

#[test]
fn an_event_out_of_turn_is_answered_with_500() {
    let failure = ListAction::Reply(Response { status: Status::InternalServerError, body: None });
    let rows = vec![book(1, "Dune")];
    assert_eq!(
        book_list(ListState::Idle, ListEvent::Fetched(rows.clone())),
        (ListState::Finished, failure.clone())
    );
    assert_eq!(
        book_list(ListState::Acquiring, ListEvent::Fetched(rows)),
        (ListState::Finished, failure.clone())
    );
    assert_eq!(
        book_list(ListState::Querying, ListEvent::Acquired),
        (ListState::Finished, failure.clone())
    );
    assert_eq!(
        book_list(ListState::Acquiring, ListEvent::Requested),
        (ListState::Finished, failure)
    );
}

#[test]
fn an_answered_request_asks_for_nothing_more() {
    let rows = vec![book(1, "Dune")];
    for event in [
        ListEvent::Requested,
        ListEvent::Acquired,
        ListEvent::AcquireFailed,
        ListEvent::Fetched(rows),
        ListEvent::FetchFailed,
    ] {
        assert_eq!(book_list(ListState::Finished, event), (ListState::Finished, ListAction::Halt));
    }
}

#[test]
fn serving_the_same_table_twice_gives_the_same_answer() {
    let db = Backend::Table(vec![book(1, "Dune"), book(2, "Emma")]);
    assert_eq!(answer(&db), answer(&db));
}

#[test]
fn another_row_order_gives_the_same_records_in_that_order() {
    let forward = vec![book(1, "Dune"), book(2, "Emma")];
    let backward = vec![book(2, "Emma"), book(1, "Dune")];
    let BookList(first) = answer(&Backend::Table(forward)).body.expect("a body");
    let BookList(mut second) = answer(&Backend::Table(backward.clone())).body.expect("a body");
    assert_eq!(second, backward);
    second.reverse();
    assert_eq!(first, second);
}
