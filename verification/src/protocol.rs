//! The vocabulary of the request handlers: the database queries and web
//! calls they ask for, the answers they get back, and what they reply.
//!
//! Every handler is a state machine. Its `start` function gives the first
//! state and action, and its `step` function takes the state and the answer
//! to the last action and gives the next state and action, until the action
//! is a reply or an abort.

use vstd::prelude::*;
use crate::models::{Book, Coursebook, Course, Date, FrontEndUserbook, User, Userbook};

verus! {

/// A database operation, as the original queries name it.
pub enum Query {
    /// Every row of `books`.
    AllBooks,
    /// The first book whose `isbn13` equals the text.
    BookByIsbn(String),
    /// The first book with this `bid`.
    BookById(i32),
    /// Every coursebook row with this `coursebook_book_id`.
    CoursebooksOfBook(i32),
    /// The first coursebook row with this `coursebook_book_id`.
    CoursebookOfBook(i32),
    /// The first coursebook row with this `coursebook_course_id`.
    CoursebookOfCourse(i32),
    /// The first course with this `cid`.
    CourseById(i32),
    /// Every course with this `period_start` and `term_start`.
    CoursesStarting { period: i32, term: i32 },
    /// The first user whose `uid` equals the text.
    UserByUid(String),
    /// Every userbook row with this `user_id`.
    UserbooksOfUser(i32),
    /// Sets `stock` of every book whose `isbn13` equals the text.
    SetStock { isbn: String, stock: Option<i32> },
    /// Inserts a userbook row.
    InsertUserbook { book_id: i32, borrow_date: Date, return_date: Date, user_id: i32 },
    /// Deletes the userbook rows with this book and this user.
    DeleteUserbooks { book_id: i32, user_id: i32 },
}

/// The answer to the last action.
pub enum Event {
    /// The database operation failed (no row found among them), with the
    /// error's text.
    Failed(String),
    Book(Book),
    Books(Vec<Book>),
    Coursebook(Coursebook),
    Coursebooks(Vec<Coursebook>),
    Course(Course),
    Courses(Vec<Course>),
    User(User),
    Userbooks(Vec<Userbook>),
    /// An update, insert or delete went through, touching this many rows.
    Rows(usize),
    /// The body of a web reply, or `None` when the request or the reading of
    /// its body failed.
    Page(Option<String>),
}

/// What a handler answers its caller.
pub enum Reply {
    /// A text, sent as it is.
    Text(String),
    /// A book, sent as its JSON.
    Book(Book),
    /// Books, sent as their JSON texts one after another.
    Books(Vec<Book>),
    /// Loans, sent as their JSON texts one after another.
    Userbooks(Vec<FrontEndUserbook>),
    /// No body at all.
    Nothing,
}

/// Why a handler stops without a reply (where the original panics).
#[derive(Debug, PartialEq, Eq, Structural)]
pub enum Fault {
    /// A web reply is not JSON.
    MalformedReply,
    /// The authentication reply has no subject to read.
    MissingSubject,
    /// A new stock does not fit in an `i32`.
    StockOverflow,
    /// The next term's number does not fit in an `i32`.
    TermOverflow,
    /// The course's last period names a day that does not exist.
    NoReturnDate,
    /// A coursebook names a book that is not there.
    MissingBook,
    /// The answer does not fit the action that was asked for.
    UnexpectedEvent,
}

/// What a handler asks for next.
pub enum Action {
    /// Run a database operation; its answer is the next event.
    Run(Query),
    /// Send an HTTP GET to the address; its body is the next event.
    Fetch(String),
    /// Answer the caller; the handler is done.
    Respond(Reply),
    /// Stop without an answer; the handler is done.
    Abort(Fault),
}

/// `action` answers with exactly the text `text`.
pub open spec fn responds_text(action: Action, text: Seq<char>) -> bool {
    action matches Action::Respond(Reply::Text(t)) && t@ == text
}

} // verus!

verus! {

/// `a` comes before `b` in the order of first, then second component.
pub open spec fn rank_below(a: (nat, nat), b: (nat, nat)) -> bool {
    a.0 < b.0 || (a.0 == b.0 && a.1 < b.1)
}

} // verus!
