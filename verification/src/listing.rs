//! The two request handlers.

use crate::book::{records, Book, BookList, BookView};
use crate::http::{listing_of, no_content, server_error, Response, ResponseView, Status};
use vstd::prelude::*;

verus! {

/// The statement that the listing runs. It takes no parameters.
pub const BOOKS_QUERY: &'static str = "select * from books";

/// Answers a liveness probe. It looks at nothing, so it says nothing about
/// the database.
pub fn health_check() -> (response: Response)
    ensures
        response@ == no_content(),
{
    Response { status: Status::NoContent, body: None }
}

/// Where a listing request stands.
#[derive(Clone, Copy, Debug, PartialEq, Eq, Structural)]
pub enum ListState {
    /// Nothing has been done yet.
    Idle,
    /// A connection has been asked of the pool.
    Acquiring,
    /// The statement has been handed to the connection.
    Querying,
    /// The request has been answered.
    Finished,
}

/// What the driver reports back to the handler.
#[derive(Clone, Debug, PartialEq, Eq)]
pub enum ListEvent {
    /// A request for the listing has arrived.
    Requested,
    /// The pool handed out a connection.
    Acquired,
    /// The pool could not hand out a connection.
    AcquireFailed,
    /// The statement ran and every row was read into a record.
    Fetched(Vec<Book>),
    /// The statement failed, or a row did not fit a record.
    FetchFailed,
}

/// What the handler tells the driver to do next.
#[derive(Clone, Debug, PartialEq, Eq)]
pub enum ListAction {
    /// Ask the pool for one connection, once.
    Acquire,
    /// Run `statement` on the connection and read every row.
    Fetch { statement: &'static str },
    /// Give the connection back, if one is held, and send this response.
    Reply(Response),
    /// Nothing: the request has been answered already.
    Halt,
}

/// The mathematical value of a [`ListEvent`].
pub enum ListEventView {
    Requested,
    Acquired,
    AcquireFailed,
    Fetched(Seq<BookView>),
    FetchFailed,
}

/// The mathematical value of a [`ListAction`].
pub enum ListActionView {
    Acquire,
    Fetch { statement: Seq<char> },
    Reply(ResponseView),
    Halt,
}

impl View for ListEvent {
    type V = ListEventView;

    open spec fn view(&self) -> ListEventView {
        match *self {
            ListEvent::Requested => ListEventView::Requested,
            ListEvent::Acquired => ListEventView::Acquired,
            ListEvent::AcquireFailed => ListEventView::AcquireFailed,
            ListEvent::Fetched(books) => ListEventView::Fetched(records(books@)),
            ListEvent::FetchFailed => ListEventView::FetchFailed,
        }
    }
}

impl View for ListAction {
    type V = ListActionView;

    open spec fn view(&self) -> ListActionView {
        match *self {
            ListAction::Acquire => ListActionView::Acquire,
            ListAction::Fetch { statement } => ListActionView::Fetch { statement: statement@ },
            ListAction::Reply(response) => ListActionView::Reply(response@),
            ListAction::Halt => ListActionView::Halt,
        }
    }
}

/// The listing handler as a transition: from where the request stands and
/// what the driver reports, to where it stands next and what is to be done.
///
/// A request is answered exactly once. An event that the state did not ask
/// for is answered like any other failure.
pub open spec fn list_step(state: ListState, event: ListEventView) -> (ListState, ListActionView) {
    match (state, event) {
        (ListState::Finished, _) => (ListState::Finished, ListActionView::Halt),
        (ListState::Idle, ListEventView::Requested) => (
            ListState::Acquiring,
            ListActionView::Acquire,
        ),
        (ListState::Acquiring, ListEventView::Acquired) => (
            ListState::Querying,
            ListActionView::Fetch { statement: BOOKS_QUERY@ },
        ),
        (ListState::Querying, ListEventView::Fetched(books)) => (
            ListState::Finished,
            ListActionView::Reply(listing_of(books)),
        ),
        _ => (ListState::Finished, ListActionView::Reply(server_error())),
    }
}

/// One step of the listing handler.
pub fn book_list(state: ListState, event: ListEvent) -> (next: (ListState, ListAction))
    ensures
        (next.0, next.1@) == list_step(state, event@),
{
    match (state, event) {
        (ListState::Finished, _) => (ListState::Finished, ListAction::Halt),
        (ListState::Idle, ListEvent::Requested) => (ListState::Acquiring, ListAction::Acquire),
        (ListState::Acquiring, ListEvent::Acquired) => (
            ListState::Querying,
            ListAction::Fetch { statement: BOOKS_QUERY },
        ),
        (ListState::Querying, ListEvent::Fetched(books)) => (
            ListState::Finished,
            ListAction::Reply(Response { status: Status::Success, body: Some(BookList(books)) }),
        ),
        _ => (
            ListState::Finished,
            ListAction::Reply(Response { status: Status::InternalServerError, body: None }),
        ),
    }
}

/// How far along a request is: the number of events after which it can stand
/// in `state` without having been answered.
pub open spec fn position(state: ListState) -> nat {
    match state {
        ListState::Idle => 0,
        ListState::Acquiring => 1,
        ListState::Querying => 2,
        ListState::Finished => 3,
    }
}

/// Where a request stands after the handler has been given the first `n` of
/// `events`, starting from [`ListState::Idle`].
pub open spec fn state_after(events: Seq<ListEventView>, n: nat) -> ListState
    recommends
        n <= events.len(),
    decreases n,
{
    if n == 0 {
        ListState::Idle
    } else {
        list_step(state_after(events, (n - 1) as nat), events[n - 1]).0
    }
}

/// What the handler asks for when it is given `events[i]`, after the events
/// before it.
pub open spec fn action_at(events: Seq<ListEventView>, i: nat) -> ListActionView
    recommends
        i < events.len(),
{
    list_step(state_after(events, i), events[i as int]).1
}

/// How the database behaves while one request is served, as far as the
/// handler can tell.
pub enum Backend {
    /// The pool cannot hand out a connection.
    Unreachable,
    /// A connection can be had, but the statement fails on it, or a row does
    /// not fit a record.
    Failing,
    /// The `books` table holds these rows and yields them in this order.
    Table(Seq<BookView>),
}

/// The event that a driver reports after it has carried out `action` against
/// `db`. Only the statement [`BOOKS_QUERY`] yields the rows of the table.
pub open spec fn outcome(db: Backend, action: ListActionView) -> ListEventView {
    match action {
        ListActionView::Acquire => if db is Unreachable {
            ListEventView::AcquireFailed
        } else {
            ListEventView::Acquired
        },
        ListActionView::Fetch { statement } => match db {
            Backend::Table(rows) if statement == BOOKS_QUERY@ => ListEventView::Fetched(rows),
            _ => ListEventView::FetchFailed,
        },
        _ => ListEventView::Requested,
    }
}

/// The answer that a request gets when the handler, standing in `state`, is
/// given `event` and its driver then works against `db` for at most `fuel`
/// further steps; `None` if no answer has been sent by then.
pub open spec fn exchange(db: Backend, state: ListState, event: ListEventView, fuel: nat) -> Option<
    ResponseView,
>
    decreases fuel,
{
    let (next, action) = list_step(state, event);
    match action {
        ListActionView::Reply(response) => Some(response),
        ListActionView::Halt => None,
        _ => if fuel == 0 {
            None
        } else {
            exchange(db, next, outcome(db, action), (fuel - 1) as nat)
        },
    }
}

/// The answer to one listing request served against `db`.
pub open spec fn served(db: Backend) -> Option<ResponseView> {
    exchange(db, ListState::Idle, ListEventView::Requested, 2)
}

/// Every step takes an unanswered request exactly one place further, or
/// answers it.
pub proof fn law_step_advances(state: ListState, event: ListEventView)
    ensures
        state != ListState::Finished ==> {
            let next = list_step(state, event).0;
            next == ListState::Finished || position(next) == position(state) + 1
        },
        state == ListState::Finished ==> list_step(state, event) == (
            ListState::Finished,
            ListActionView::Halt,
        ),
{
}

/// A step sends an answer exactly when it takes the request from unanswered
/// to answered.
pub proof fn law_reply_finishes(state: ListState, event: ListEventView)
    ensures
        list_step(state, event).1 is Reply <==> state != ListState::Finished && list_step(
            state,
            event,
        ).0 == ListState::Finished,
{
}

/// After `n` events a request is either answered or stands exactly `n` places
/// along; after three it is answered, whatever the events were.
pub proof fn law_answered_within_three(events: Seq<ListEventView>, n: nat)
    requires
        n <= events.len(),
    ensures
        state_after(events, n) == ListState::Finished || position(state_after(events, n)) == n,
        n >= 3 ==> state_after(events, n) == ListState::Finished,
    decreases n,
{
    if n > 0 {
        law_answered_within_three(events, (n - 1) as nat);
    }
}

/// Once a request is answered it stays answered.
pub proof fn law_finished_is_final(events: Seq<ListEventView>, m: nat, n: nat)
    requires
        m <= n <= events.len(),
        state_after(events, m) == ListState::Finished,
    ensures
        state_after(events, n) == ListState::Finished,
    decreases n,
{
    if m < n {
        law_finished_is_final(events, m, (n - 1) as nat);
    }
}

/// Whatever the driver reports, in whatever order: a connection is asked for
/// only at the first event and so at most once, the statement is run only at
/// the second, only after a connection was handed out, and it is
/// [`BOOKS_QUERY`]; at most one answer is sent, and after it nothing more is
/// asked for.
pub proof fn law_one_attempt_one_answer(events: Seq<ListEventView>, i: nat, j: nat)
    requires
        i < events.len(),
        j < events.len(),
    ensures
        action_at(events, i) is Acquire ==> i == 0 && events[0] is Requested,
        action_at(events, i) is Fetch ==> i == 1 && events[0] is Requested && events[1] is Acquired
            && action_at(events, i) == (ListActionView::Fetch { statement: BOOKS_QUERY@ }),
        action_at(events, i) is Reply && i < j ==> action_at(events, j) is Halt,
        i >= 3 ==> action_at(events, i) is Halt,
{
    law_answered_within_three(events, i);
    if action_at(events, i) is Fetch {
        assert(state_after(events, 0) == ListState::Idle);
        assert(state_after(events, 1) == list_step(ListState::Idle, events[0]).0);
    }
    if action_at(events, i) is Reply && i < j {
        assert(state_after(events, i + 1) == ListState::Finished);
        law_finished_is_final(events, i + 1, j);
    }
}

/// A request served against a reachable, working database is answered with
/// 200 and exactly the rows of the table, each as one record, in the order
/// in which the table yields them: as many records as rows, none for an
/// empty table.
pub proof fn law_table_is_listed(rows: Seq<BookView>)
    ensures
        served(Backend::Table(rows)) == Some(listing_of(rows)),
        served(Backend::Table(rows))->0.status.code_spec() == 200,
        served(Backend::Table(rows))->0.body->0.len() == rows.len(),
        forall|k: int| 0 <= k < rows.len() ==> served(Backend::Table(rows))->0.body->0[k] == rows[k],
{
    reveal_with_fuel(exchange, 3);
}

/// A request served while the pool hands out no connection, or while the
/// statement fails, is answered with 500 and no body: never with a part of a
/// listing, and the two failures cannot be told apart.
pub proof fn law_failure_is_server_error(db: Backend)
    requires
        !(db is Table),
    ensures
        served(db) == Some(server_error()),
        served(db)->0.status.code_spec() == 500,
        served(db)->0.body is None,
{
    reveal_with_fuel(exchange, 3);
}

/// Serving the same table again gives the same answer. Where the table
/// yields the same rows in another order, the answer holds the same records,
/// each as often, in that other order.
pub proof fn law_listing_is_repeatable(first: Seq<BookView>, second: Seq<BookView>)
    ensures
        first == second ==> served(Backend::Table(first)) == served(Backend::Table(second)),
        first.to_multiset() == second.to_multiset() ==> served(
            Backend::Table(first),
        )->0.body->0.to_multiset() == served(Backend::Table(second))->0.body->0.to_multiset(),
{
    law_table_is_listed(first);
    law_table_is_listed(second);
}

} // verus!
