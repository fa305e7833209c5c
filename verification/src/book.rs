//! Records of the `books` table.

use chrono::NaiveDateTime;
use vstd::prelude::*;

verus! {

/// `chrono::NaiveDateTime`, a calendar date and time of day without a time
/// zone. The verifier sees nothing inside it: a record carries its two
/// timestamps from the row to the response untouched, and no contract claims
/// anything about what one holds.
#[verifier::external_type_specification]
#[verifier::external_body]
pub struct ExNaiveDateTime(chrono::NaiveDateTime);

/// `NaiveDateTime::clone`. The type is `Copy` and its `Clone` is derived, so
/// the clone is the value itself.
pub assume_specification[ <NaiveDateTime as Clone>::clone ](t: &NaiveDateTime) -> (copy:
    NaiveDateTime)
    ensures
        copy == *t,
;

/// One row of the `books` table. Every field is copied from the row as it
/// was read; none is computed.
#[derive(Clone, Debug, PartialEq, Eq)]
pub struct Book {
    pub id: i64,
    pub title: String,
    pub author: String,
    pub publisher: String,
    pub isbn: String,
    pub comment: String,
    pub created_at: NaiveDateTime,
    pub updated_at: NaiveDateTime,
}

/// The mathematical value of a [`Book`].
pub struct BookView {
    pub id: int,
    pub title: Seq<char>,
    pub author: Seq<char>,
    pub publisher: Seq<char>,
    pub isbn: Seq<char>,
    pub comment: Seq<char>,
    pub created_at: NaiveDateTime,
    pub updated_at: NaiveDateTime,
}

impl View for Book {
    type V = BookView;

    open spec fn view(&self) -> BookView {
        BookView {
            id: self.id as int,
            title: self.title@,
            author: self.author@,
            publisher: self.publisher@,
            isbn: self.isbn@,
            comment: self.comment@,
            created_at: self.created_at,
            updated_at: self.updated_at,
        }
    }
}

/// The values of a run of records, in the order in which they stand.
pub open spec fn records(books: Seq<Book>) -> Seq<BookView> {
    books.map_values(|b: Book| b@)
}

/// The records of one listing, in the order in which the query returned them.
#[derive(Clone, Debug, PartialEq, Eq)]
pub struct BookList(pub Vec<Book>);

impl View for BookList {
    type V = Seq<BookView>;

    open spec fn view(&self) -> Seq<BookView> {
        records(self.0@)
    }
}

} // verus!
