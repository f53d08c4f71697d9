//! Reading the catalogue: all books, or one book by its ISBN or its id.

use vstd::prelude::*;
use crate::json::{json_quoted, json_string_literal, lemma_plain_string_literal, needs_no_escape};
use crate::models::Book;
use crate::protocol::{responds_text, Action, Event, Fault, Query, Reply};
use crate::text::{error_line, error_text};

verus! {

/// Where a listing of all books stands.
pub enum ListBooksState {
    /// Waiting for the rows of `books`.
    AwaitBooks,
    /// Finished.
    Done,
}

/// Starts listing all books: loads every row of `books`.
pub fn list_books_start() -> (res: (ListBooksState, Action))
    ensures
        res.0 is AwaitBooks,
        res.1 == Action::Run(Query::AllBooks),
{
    (ListBooksState::AwaitBooks, Action::Run(Query::AllBooks))
}

/// One step of a listing: the loaded books are the reply, a failure ends
/// with the error line, and any other answer stops the listing.
pub open spec fn list_books_transition(state: ListBooksState, event: Event, next: ListBooksState, action: Action) -> bool {
    &&& next is Done
    &&& match (state, event) {
        (ListBooksState::AwaitBooks, Event::Books(books)) => action == Action::Respond(Reply::Books(books)),
        (ListBooksState::AwaitBooks, Event::Failed(message)) => responds_text(action, error_line(message@)),
        _ => action == Action::Abort(Fault::UnexpectedEvent),
    }
}

/// Takes one step of a listing of all books.
pub fn list_books_step(state: ListBooksState, event: Event) -> (res: (ListBooksState, Action))
    ensures
        list_books_transition(state, event, res.0, res.1),
{
    match state {
        ListBooksState::AwaitBooks => match event {
            Event::Books(books) => (ListBooksState::Done, Action::Respond(Reply::Books(books))),
            Event::Failed(message) => (
                ListBooksState::Done,
                Action::Respond(Reply::Text(error_text(message.as_str()))),
            ),
            _ => (ListBooksState::Done, Action::Abort(Fault::UnexpectedEvent)),
        },
        ListBooksState::Done => (ListBooksState::Done, Action::Abort(Fault::UnexpectedEvent)),
    }
}

/// What a single book is looked up by.
#[derive(Clone, Copy, Debug, PartialEq, Eq, Structural)]
pub enum LookupKey {
    Isbn,
    Id,
}

/// Where a lookup of a single book stands.
pub enum BookLookupState {
    /// Waiting for the book.
    AwaitBook(LookupKey),
    /// Finished.
    Done,
}

/// The message for a book that could not be found.
pub open spec fn not_found_line(key: LookupKey) -> Seq<char> {
    match key {
        LookupKey::Isbn => "Error: Couldn't retrieve book with such ISBN13."@,
        LookupKey::Id => "Error: Couldn't retrieve book with such bid."@,
    }
}

/// Starts looking up the first book whose ISBN-13 is `isbn`.
pub fn book_by_isbn_start(isbn: String) -> (res: (BookLookupState, Action))
    ensures
        res.0 == BookLookupState::AwaitBook(LookupKey::Isbn),
        res.1 == Action::Run(Query::BookByIsbn(isbn)),
{
    (BookLookupState::AwaitBook(LookupKey::Isbn), Action::Run(Query::BookByIsbn(isbn)))
}

/// Starts looking up the first book with id `bid`.
pub fn book_by_id_start(bid: i32) -> (res: (BookLookupState, Action))
    ensures
        res.0 == BookLookupState::AwaitBook(LookupKey::Id),
        res.1 == Action::Run(Query::BookById(bid)),
{
    (BookLookupState::AwaitBook(LookupKey::Id), Action::Run(Query::BookById(bid)))
}

/// One step of a lookup: the found book is the reply; a failure is answered
/// with the not-found message as a JSON string, which is the message between
/// quotes; any other answer stops it.
pub open spec fn book_lookup_transition(state: BookLookupState, event: Event, next: BookLookupState, action: Action) -> bool {
    &&& next is Done
    &&& match (state, event) {
        (BookLookupState::AwaitBook(_), Event::Book(book)) => action == Action::Respond(Reply::Book(book)),
        (BookLookupState::AwaitBook(key), Event::Failed(_)) => responds_text(action, seq!['"'] + not_found_line(key) + seq!['"']),
        _ => action == Action::Abort(Fault::UnexpectedEvent),
    }
}

/// The not-found messages hold no character that JSON escapes, so as JSON
/// strings they are the messages between quotes.
pub proof fn lemma_not_found_lines_are_plain(key: LookupKey)
    ensures
        json_string_literal(not_found_line(key)) == seq!['"'] + not_found_line(key) + seq!['"'],
{
    reveal_strlit("Error: Couldn't retrieve book with such ISBN13.");
    reveal_strlit("Error: Couldn't retrieve book with such bid.");
    let line = not_found_line(key);
    assert forall|i: int| 0 <= i < line.len() implies needs_no_escape(#[trigger] line[i]) by {
    }
    lemma_plain_string_literal(line);
}

/// Takes one step of a lookup of a single book.
pub fn book_lookup_step(state: BookLookupState, event: Event) -> (res: (BookLookupState, Action))
    ensures
        book_lookup_transition(state, event, res.0, res.1),
{
    match state {
        BookLookupState::AwaitBook(key) => match event {
            Event::Book(book) => (BookLookupState::Done, Action::Respond(Reply::Book(book))),
            Event::Failed(_) => {
                let message = match key {
                    LookupKey::Isbn => "Error: Couldn't retrieve book with such ISBN13.",
                    LookupKey::Id => "Error: Couldn't retrieve book with such bid.",
                };
                proof {
                    lemma_not_found_lines_are_plain(key);
                }
                (BookLookupState::Done, Action::Respond(Reply::Text(json_quoted(message))))
            },
            _ => (BookLookupState::Done, Action::Abort(Fault::UnexpectedEvent)),
        },
        BookLookupState::Done => (BookLookupState::Done, Action::Abort(Fault::UnexpectedEvent)),
    }
}

/// The listing answers with every loaded book, in the order loaded: as many
/// books as rows, the `i`-th book being the `i`-th row.
pub proof fn lemma_listing_keeps_every_row(books: Vec<Book>, next: ListBooksState, action: Action)
    requires
        list_books_transition(ListBooksState::AwaitBooks, Event::Books(books), next, action),
    ensures
        next is Done,
        action matches Action::Respond(Reply::Books(reply)) && reply@.len() == books@.len()
            && forall|i: int| 0 <= i < books@.len() ==> #[trigger] reply@[i] == books@[i],
{
}

/// A lookup answers with the row it found, each field as it was found.
pub proof fn lemma_lookup_replies_found_row(key: LookupKey, book: Book, next: BookLookupState, action: Action)
    requires
        book_lookup_transition(BookLookupState::AwaitBook(key), Event::Book(book), next, action),
    ensures
        next is Done,
        action matches Action::Respond(Reply::Book(reply)) && reply.bid == book.bid && reply.isbn13 == book.isbn13
            && reply.title == book.title && reply.authors == book.authors && reply.edition == book.edition
            && reply.stock == book.stock && reply.description == book.description,
{
}

/// A lookup of a book that is not there answers with the message of its key
/// between quotes: the ISBN-13 message for a lookup by ISBN, the bid message
/// for a lookup by id.
pub proof fn lemma_lookup_missing_row(key: LookupKey, message: String, next: BookLookupState, action: Action)
    requires
        book_lookup_transition(BookLookupState::AwaitBook(key), Event::Failed(message), next, action),
    ensures
        next is Done,
        key == LookupKey::Isbn ==> responds_text(action, seq!['"'] + "Error: Couldn't retrieve book with such ISBN13."@ + seq!['"']),
        key == LookupKey::Id ==> responds_text(action, seq!['"'] + "Error: Couldn't retrieve book with such bid."@ + seq!['"']),
{
}

/// A listing whose load fails answers with "Error: " and the failure's text.
pub proof fn lemma_listing_load_failed(message: String, next: ListBooksState, action: Action)
    requires
        list_books_transition(ListBooksState::AwaitBooks, Event::Failed(message), next, action),
    ensures
        next is Done,
        responds_text(action, "Error: "@ + message@),
{
}

} // verus!
