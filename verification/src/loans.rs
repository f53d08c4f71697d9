//! Loans: borrowing and returning a book, listing a user's loans, and
//! selling a book back to the service.

use vstd::prelude::*;
use crate::auth::{
    page_view, verify_address, verify_decision_of, verify_outcome, verify_url, whoami_address,
    whoami_decision_of, whoami_outcome, whoami_url, AuthOutcome,
};
use crate::calendar::{due_date_for_period, return_date_for_period};
use crate::models::{Book, Date, FrontEndUserbook, User, Userbook};
use crate::protocol::{rank_below, responds_text, Action, Event, Fault, Query, Reply};
use crate::stock::{stock_pending, stock_runs, stock_start, stock_step, stock_transition, StockChange, StockState};
use crate::text::{error_line, error_text};

verus! {

/// The answer to a caller that the authentication service does not admit.
pub open spec fn rejected_line() -> Seq<char> {
    "Could not authenticate"@
}

/// The end of a handler on a `whoami` reply: it never lets the caller
/// through, so the handler answers "Could not authenticate" or stops.
pub open spec fn ends_on_whoami(page: Option<Seq<char>>, action: Action) -> bool {
    match whoami_decision_of(page) {
        AuthOutcome::Rejected => responds_text(action, rejected_line()),
        AuthOutcome::Broken(fault) => action == Action::Abort(fault),
    }
}

fn whoami_end(page: &Option<String>) -> (action: Action)
    ensures
        ends_on_whoami(page_view(page), action),
{
    match whoami_outcome(page) {
        AuthOutcome::Rejected => Action::Respond(Reply::Text(String::from_str("Could not authenticate"))),
        AuthOutcome::Broken(fault) => Action::Abort(fault),
    }
}

/// An inner stock change took a step to `inner_next` with `inner_action`,
/// and the handler around it goes on: a query of the change is passed on
/// with `next` wrapping the change's new state, its reply is replaced by
/// `done_line`, and an abort is passed on.
pub open spec fn passes_stock_step(inner_next: StockState, inner_action: Action, wrapped: bool, next_done: bool, action: Action, done_line: Seq<char>) -> bool {
    match inner_action {
        Action::Run(_) => wrapped && action == inner_action,
        Action::Respond(_) => next_done && responds_text(action, done_line),
        Action::Abort(fault) => next_done && action == Action::Abort(fault),
        Action::Fetch(_) => false,
    }
}

/// Where a loan of a book stands.
pub enum BorrowState {
    /// Waiting for the reply of the authentication service.
    AwaitWhoami,
    /// Waiting for the book with ISBN `isbn`.
    AwaitBook { isbn: String, token: String, today: Date },
    /// Waiting for the first coursebook row of book `bid`.
    AwaitCoursebook { isbn: String, token: String, today: Date, bid: i32 },
    /// Waiting for the course.
    AwaitCourse { isbn: String, token: String, today: Date, bid: i32 },
    /// Waiting for the user; the loan is due back on `return_date`.
    AwaitUser { isbn: String, today: Date, bid: i32, return_date: Date },
    /// Waiting for the new userbook row to be stored.
    AwaitInsert { isbn: String },
    /// Lowering the stock of the book.
    Decreasing(StockState),
    /// Finished.
    Done,
}

/// How far a loan still has to go.
pub open spec fn borrow_rank(state: BorrowState) -> nat {
    match state {
        BorrowState::AwaitWhoami => 8,
        BorrowState::AwaitBook { .. } => 7,
        BorrowState::AwaitCoursebook { .. } => 6,
        BorrowState::AwaitCourse { .. } => 5,
        BorrowState::AwaitUser { .. } => 4,
        BorrowState::AwaitInsert { .. } => 3,
        BorrowState::Decreasing(inner) => stock_pending(inner),
        BorrowState::Done => 0,
    }
}

/// Starts a loan for the caller with `token`: asks the authentication
/// service who the token belongs to.
pub fn borrow_start(token: &str) -> (res: (BorrowState, Action))
    ensures
        res.0 is AwaitWhoami,
        res.1 matches Action::Fetch(url) && url@ == whoami_address(token@),
{
    (BorrowState::AwaitWhoami, Action::Fetch(whoami_url(token)))
}

/// Goes on with a loan whose caller is authenticated: looks up the book
/// with ISBN `isbn`. The loan is dated `today`, and the user is the one
/// whose uid is `token`.
pub fn borrow_after_authentication(isbn: String, token: String, today: Date) -> (res: (BorrowState, Action))
    ensures
        res.0 == (BorrowState::AwaitBook { isbn, token, today }),
        res.1 matches Action::Run(Query::BookByIsbn(i)) && i@ == isbn@,
{
    let lookup = isbn.clone();
    (BorrowState::AwaitBook { isbn, token, today }, Action::Run(Query::BookByIsbn(lookup)))
}

/// One step of a loan.
///
/// The authentication reply never lets the caller through. Once through,
/// the book is looked up by its ISBN, then the first coursebook row of the
/// book, then the course whose id is the row's book id, then the user whose
/// uid is the token. The loan is stored with the day of the request and the
/// due day of the course's last period (there is none for period 5, which
/// stops the loan), and then the book's stock is lowered by one; whatever
/// that gives, the answer is "Succesfully borrowed book.". Every failed
/// database operation before it ends with the error line; any other answer
/// stops the loan.
pub open spec fn borrow_transition(state: BorrowState, event: Event, next: BorrowState, action: Action) -> bool {
    let unexpected = next is Done && action == Action::Abort(Fault::UnexpectedEvent);
    match state {
        BorrowState::AwaitWhoami => match event {
            Event::Page(page) => next is Done && ends_on_whoami(page_view(&page), action),
            _ => unexpected,
        },
        BorrowState::AwaitBook { isbn, token, today } => match event {
            Event::Book(book) => next == (BorrowState::AwaitCoursebook { isbn, token, today, bid: book.bid })
                && action == Action::Run(Query::CoursebookOfBook(book.bid)),
            Event::Failed(message) => next is Done && responds_text(action, error_line(message@)),
            _ => unexpected,
        },
        BorrowState::AwaitCoursebook { isbn, token, today, bid } => match event {
            Event::Coursebook(row) => next == (BorrowState::AwaitCourse { isbn, token, today, bid })
                && action == Action::Run(Query::CourseById(row.coursebook_book_id)),
            Event::Failed(message) => next is Done && responds_text(action, error_line(message@)),
            _ => unexpected,
        },
        BorrowState::AwaitCourse { isbn, token, today, bid } => match event {
            Event::Course(course) => match due_date_for_period(course.period_end) {
                None => next is Done && action == Action::Abort(Fault::NoReturnDate),
                Some(return_date) => next == (BorrowState::AwaitUser { isbn, today, bid, return_date })
                    && action == Action::Run(Query::UserByUid(token)),
            },
            Event::Failed(message) => next is Done && responds_text(action, error_line(message@)),
            _ => unexpected,
        },
        BorrowState::AwaitUser { isbn, today, bid, return_date } => match event {
            Event::User(user) => next == (BorrowState::AwaitInsert { isbn })
                && action == Action::Run(Query::InsertUserbook {
                    book_id: bid,
                    borrow_date: today,
                    return_date,
                    user_id: user.user_id,
                }),
            Event::Failed(message) => next is Done && responds_text(action, error_line(message@)),
            _ => unexpected,
        },
        BorrowState::AwaitInsert { isbn } => match event {
            Event::Rows(_) => {
                &&& next == BorrowState::Decreasing(StockState::AwaitBook { isbn, change: StockChange::Decrease })
                &&& action matches Action::Run(Query::BookByIsbn(i)) && i@ == isbn@
            },
            Event::Failed(message) => next is Done && responds_text(action, error_line(message@)),
            _ => unexpected,
        },
        BorrowState::Decreasing(inner) => exists|inner_next: StockState, inner_action: Action|
            #![trigger stock_transition(inner, event, inner_next, inner_action)]
            stock_transition(inner, event, inner_next, inner_action) && passes_stock_step(
                inner_next,
                inner_action,
                next == BorrowState::Decreasing(inner_next),
                next is Done,
                action,
                "Succesfully borrowed book."@,
            ),
        BorrowState::Done => unexpected,
    }
}

/// Takes one step of a loan.
pub fn borrow_step(state: BorrowState, event: Event) -> (res: (BorrowState, Action))
    ensures
        borrow_transition(state, event, res.0, res.1),
        res.1 is Run ==> borrow_rank(res.0) < borrow_rank(state),
        !(res.1 is Run) ==> res.0 is Done && res.1 !is Fetch,
{
    match state {
        BorrowState::AwaitWhoami => match event {
            Event::Page(page) => (BorrowState::Done, whoami_end(&page)),
            _ => (BorrowState::Done, Action::Abort(Fault::UnexpectedEvent)),
        },
        BorrowState::AwaitBook { isbn, token, today } => match event {
            Event::Book(book) => (
                BorrowState::AwaitCoursebook { isbn, token, today, bid: book.bid },
                Action::Run(Query::CoursebookOfBook(book.bid)),
            ),
            Event::Failed(message) => (BorrowState::Done, Action::Respond(Reply::Text(error_text(message.as_str())))),
            _ => (BorrowState::Done, Action::Abort(Fault::UnexpectedEvent)),
        },
        BorrowState::AwaitCoursebook { isbn, token, today, bid } => match event {
            Event::Coursebook(row) => (
                BorrowState::AwaitCourse { isbn, token, today, bid },
                Action::Run(Query::CourseById(row.coursebook_book_id)),
            ),
            Event::Failed(message) => (BorrowState::Done, Action::Respond(Reply::Text(error_text(message.as_str())))),
            _ => (BorrowState::Done, Action::Abort(Fault::UnexpectedEvent)),
        },
        BorrowState::AwaitCourse { isbn, token, today, bid } => match event {
            Event::Course(course) => match return_date_for_period(course.period_end) {
                None => (BorrowState::Done, Action::Abort(Fault::NoReturnDate)),
                Some(return_date) => (
                    BorrowState::AwaitUser { isbn, today, bid, return_date },
                    Action::Run(Query::UserByUid(token)),
                ),
            },
            Event::Failed(message) => (BorrowState::Done, Action::Respond(Reply::Text(error_text(message.as_str())))),
            _ => (BorrowState::Done, Action::Abort(Fault::UnexpectedEvent)),
        },
        BorrowState::AwaitUser { isbn, today, bid, return_date } => match event {
            Event::User(user) => (
                BorrowState::AwaitInsert { isbn },
                Action::Run(Query::InsertUserbook {
                    book_id: bid,
                    borrow_date: today,
                    return_date,
                    user_id: user.user_id,
                }),
            ),
            Event::Failed(message) => (BorrowState::Done, Action::Respond(Reply::Text(error_text(message.as_str())))),
            _ => (BorrowState::Done, Action::Abort(Fault::UnexpectedEvent)),
        },
        BorrowState::AwaitInsert { isbn } => match event {
            Event::Rows(_) => {
                let (inner, action) = stock_start(isbn, StockChange::Decrease);
                (BorrowState::Decreasing(inner), action)
            },
            Event::Failed(message) => (BorrowState::Done, Action::Respond(Reply::Text(error_text(message.as_str())))),
            _ => (BorrowState::Done, Action::Abort(Fault::UnexpectedEvent)),
        },
        BorrowState::Decreasing(inner) => {
            let ghost old_inner = inner;
            let ghost old_event = event;
            let (inner_next, inner_action) = stock_step(inner, event);
            let ghost gn = inner_next;
            let ghost ga = inner_action;
            let res = match inner_action {
                Action::Run(query) => (BorrowState::Decreasing(inner_next), Action::Run(query)),
                Action::Abort(fault) => (BorrowState::Done, Action::Abort(fault)),
                _ => (
                    BorrowState::Done,
                    Action::Respond(Reply::Text(String::from_str("Succesfully borrowed book."))),
                ),
            };
            proof {
                assert(stock_transition(old_inner, old_event, gn, ga));
            }
            res
        },
        BorrowState::Done => (BorrowState::Done, Action::Abort(Fault::UnexpectedEvent)),
    }
}


/// Where the return of a book stands.
pub enum ReturnState {
    /// Waiting for the reply of the authentication service.
    AwaitWhoami,
    /// Waiting for the user.
    AwaitUser { isbn: String },
    /// Waiting for the book with ISBN `isbn`.
    AwaitBook { isbn: String, user_id: i32 },
    /// Waiting for the user's loans of the book to be deleted.
    AwaitDelete { isbn: String },
    /// Raising the stock of the book.
    Increasing(StockState),
    /// Finished.
    Done,
}

/// How far a return still has to go.
pub open spec fn return_rank(state: ReturnState) -> nat {
    match state {
        ReturnState::AwaitWhoami => 6,
        ReturnState::AwaitUser { .. } => 5,
        ReturnState::AwaitBook { .. } => 4,
        ReturnState::AwaitDelete { .. } => 3,
        ReturnState::Increasing(inner) => stock_pending(inner),
        ReturnState::Done => 0,
    }
}

/// Starts the return of a book by the caller with `token`: asks the
/// authentication service who the token belongs to.
pub fn return_start(token: &str) -> (res: (ReturnState, Action))
    ensures
        res.0 is AwaitWhoami,
        res.1 matches Action::Fetch(url) && url@ == whoami_address(token@),
{
    (ReturnState::AwaitWhoami, Action::Fetch(whoami_url(token)))
}

/// Goes on with a return whose caller is authenticated as `uid`: looks up
/// the user with that uid.
pub fn return_after_authentication(uid: String, isbn: String) -> (res: (ReturnState, Action))
    ensures
        res.0 == (ReturnState::AwaitUser { isbn }),
        res.1 == Action::Run(Query::UserByUid(uid)),
{
    (ReturnState::AwaitUser { isbn }, Action::Run(Query::UserByUid(uid)))
}

/// One step of a return.
///
/// The authentication reply never lets the caller through. Once through,
/// the user is looked up, then the book by its ISBN, then the user's loans
/// of the book are deleted and the book's stock is raised by one; whatever
/// that gives, the answer is "Succesfully returned book.". A failed lookup
/// ends with the error line, a failed delete with the error's text alone;
/// any other answer stops the return.
pub open spec fn return_transition(state: ReturnState, event: Event, next: ReturnState, action: Action) -> bool {
    let unexpected = next is Done && action == Action::Abort(Fault::UnexpectedEvent);
    match state {
        ReturnState::AwaitWhoami => match event {
            Event::Page(page) => next is Done && ends_on_whoami(page_view(&page), action),
            _ => unexpected,
        },
        ReturnState::AwaitUser { isbn } => match event {
            Event::User(user) => {
                &&& next == (ReturnState::AwaitBook { isbn, user_id: user.user_id })
                &&& action matches Action::Run(Query::BookByIsbn(i)) && i@ == isbn@
            },
            Event::Failed(message) => next is Done && responds_text(action, error_line(message@)),
            _ => unexpected,
        },
        ReturnState::AwaitBook { isbn, user_id } => match event {
            Event::Book(book) => next == (ReturnState::AwaitDelete { isbn })
                && action == Action::Run(Query::DeleteUserbooks { book_id: book.bid, user_id }),
            Event::Failed(message) => next is Done && responds_text(action, error_line(message@)),
            _ => unexpected,
        },
        ReturnState::AwaitDelete { isbn } => match event {
            Event::Rows(_) => {
                &&& next == ReturnState::Increasing(StockState::AwaitBook { isbn, change: StockChange::Increase(1) })
                &&& action matches Action::Run(Query::BookByIsbn(i)) && i@ == isbn@
            },
            Event::Failed(message) => next is Done && responds_text(action, message@),
            _ => unexpected,
        },
        ReturnState::Increasing(inner) => exists|inner_next: StockState, inner_action: Action|
            #![trigger stock_transition(inner, event, inner_next, inner_action)]
            stock_transition(inner, event, inner_next, inner_action) && passes_stock_step(
                inner_next,
                inner_action,
                next == ReturnState::Increasing(inner_next),
                next is Done,
                action,
                "Succesfully returned book."@,
            ),
        ReturnState::Done => unexpected,
    }
}

/// Takes one step of a return.
pub fn return_step(state: ReturnState, event: Event) -> (res: (ReturnState, Action))
    ensures
        return_transition(state, event, res.0, res.1),
        res.1 is Run ==> return_rank(res.0) < return_rank(state),
        !(res.1 is Run) ==> res.0 is Done && res.1 !is Fetch,
{
    match state {
        ReturnState::AwaitWhoami => match event {
            Event::Page(page) => (ReturnState::Done, whoami_end(&page)),
            _ => (ReturnState::Done, Action::Abort(Fault::UnexpectedEvent)),
        },
        ReturnState::AwaitUser { isbn } => match event {
            Event::User(user) => {
                let lookup = isbn.clone();
                (ReturnState::AwaitBook { isbn, user_id: user.user_id }, Action::Run(Query::BookByIsbn(lookup)))
            },
            Event::Failed(message) => (ReturnState::Done, Action::Respond(Reply::Text(error_text(message.as_str())))),
            _ => (ReturnState::Done, Action::Abort(Fault::UnexpectedEvent)),
        },
        ReturnState::AwaitBook { isbn, user_id } => match event {
            Event::Book(book) => (
                ReturnState::AwaitDelete { isbn },
                Action::Run(Query::DeleteUserbooks { book_id: book.bid, user_id }),
            ),
            Event::Failed(message) => (ReturnState::Done, Action::Respond(Reply::Text(error_text(message.as_str())))),
            _ => (ReturnState::Done, Action::Abort(Fault::UnexpectedEvent)),
        },
        ReturnState::AwaitDelete { isbn } => match event {
            Event::Rows(_) => {
                let (inner, action) = stock_start(isbn, StockChange::Increase(1));
                (ReturnState::Increasing(inner), action)
            },
            Event::Failed(message) => (ReturnState::Done, Action::Respond(Reply::Text(message))),
            _ => (ReturnState::Done, Action::Abort(Fault::UnexpectedEvent)),
        },
        ReturnState::Increasing(inner) => {
            let ghost old_inner = inner;
            let ghost old_event = event;
            let (inner_next, inner_action) = stock_step(inner, event);
            let ghost gn = inner_next;
            let ghost ga = inner_action;
            let res = match inner_action {
                Action::Run(query) => (ReturnState::Increasing(inner_next), Action::Run(query)),
                Action::Abort(fault) => (ReturnState::Done, Action::Abort(fault)),
                _ => (
                    ReturnState::Done,
                    Action::Respond(Reply::Text(String::from_str("Succesfully returned book."))),
                ),
            };
            proof {
                assert(stock_transition(old_inner, old_event, gn, ga));
            }
            res
        },
        ReturnState::Done => (ReturnState::Done, Action::Abort(Fault::UnexpectedEvent)),
    }
}

/// Where a listing of a user's loans stands.
pub enum UserbooksState {
    /// Waiting for the reply of the token check.
    AwaitVerdict { token: String },
    /// Waiting for the user.
    AwaitUser,
    /// Waiting for the user's loans.
    AwaitUserbooks,
    /// Waiting for the book of `userbooks[next]`; `shown` holds what is shown
    /// of the loans before it.
    AwaitBook { userbooks: Vec<Userbook>, next: usize, shown: Vec<FrontEndUserbook> },
    /// Finished.
    Done,
}

/// The state is one that the listing can be in.
pub open spec fn userbooks_wf(state: UserbooksState) -> bool {
    state matches UserbooksState::AwaitBook { userbooks, next, .. } ==> next < userbooks.len()
}

/// How far a listing still has to go.
pub open spec fn userbooks_rank(state: UserbooksState) -> (nat, nat) {
    match state {
        UserbooksState::AwaitVerdict { .. } => (4, 0),
        UserbooksState::AwaitUser => (3, 0),
        UserbooksState::AwaitUserbooks => (2, 0),
        UserbooksState::AwaitBook { userbooks, next, .. } => (1, (userbooks.len() - next) as nat),
        UserbooksState::Done => (0, 0),
    }
}

/// What is shown of a loan together with its book.
pub open spec fn shown_loan(title: String, isbn13: Option<String>, authors: String, loan: Userbook) -> FrontEndUserbook {
    FrontEndUserbook {
        title,
        isbn13,
        authors,
        borrow_date: loan.borrow_date,
        return_date: loan.return_date,
    }
}

/// Going on with `userbooks` from index `next_index` with what is shown so
/// far: ask for the book of the next loan, or, when none is left, answer
/// with the loans shown.
pub open spec fn userbooks_advance(
    userbooks: Seq<Userbook>,
    next_index: int,
    shown: Seq<FrontEndUserbook>,
    next: UserbooksState,
    action: Action,
) -> bool {
    if next_index < userbooks.len() {
        &&& next matches UserbooksState::AwaitBook { userbooks: u, next: n, shown: s }
            && u@ == userbooks && n == next_index && s@ == shown
        &&& action == Action::Run(Query::BookById(userbooks[next_index].book_id))
    } else {
        &&& next is Done
        &&& action matches Action::Respond(Reply::Userbooks(s)) && s@ == shown
    }
}

/// Starts listing the loans of the user with `token`: asks the
/// authentication service whether the token is valid.
pub fn userbooks_start(token: String) -> (res: (UserbooksState, Action))
    ensures
        res.0 == (UserbooksState::AwaitVerdict { token }),
        res.1 matches Action::Fetch(url) && url@ == verify_address(token@),
{
    let url = verify_url(token.as_str());
    (UserbooksState::AwaitVerdict { token }, Action::Fetch(url))
}

/// One step of the listing.
///
/// A reply of the token check that is not JSON stops the listing; a token
/// that does not count as verified gets no body at all. Otherwise the user
/// whose uid is the token is looked up, then the user's loans, then the
/// book of each loan; the reply shows, for each loan, the book's title,
/// ISBN-13 and authors with the loan's dates. A failed database operation
/// ends with the error's text alone; any other answer stops the listing.
pub open spec fn userbooks_transition(state: UserbooksState, event: Event, next: UserbooksState, action: Action) -> bool {
    let unexpected = next is Done && action == Action::Abort(Fault::UnexpectedEvent);
    match state {
        UserbooksState::AwaitVerdict { token } => match event {
            Event::Page(page) => match verify_decision_of(page_view(&page)) {
                Err(fault) => next is Done && action == Action::Abort(fault),
                Ok(false) => next is Done && action == Action::Respond(Reply::Nothing),
                Ok(true) => next is AwaitUser && action == Action::Run(Query::UserByUid(token)),
            },
            _ => unexpected,
        },
        UserbooksState::AwaitUser => match event {
            Event::User(user) => next is AwaitUserbooks && action == Action::Run(Query::UserbooksOfUser(user.user_id)),
            Event::Failed(message) => next is Done && responds_text(action, message@),
            _ => unexpected,
        },
        UserbooksState::AwaitUserbooks => match event {
            Event::Userbooks(loans) => userbooks_advance(loans@, 0, Seq::empty(), next, action),
            Event::Failed(message) => next is Done && responds_text(action, message@),
            _ => unexpected,
        },
        UserbooksState::AwaitBook { userbooks, next: i, shown } => match event {
            Event::Book(book) => userbooks_advance(
                userbooks@,
                i + 1,
                shown@.push(shown_loan(book.title, book.isbn13, book.authors, userbooks@[i as int])),
                next,
                action,
            ),
            Event::Failed(message) => next is Done && responds_text(action, message@),
            _ => unexpected,
        },
        UserbooksState::Done => unexpected,
    }
}

fn userbooks_continue(userbooks: Vec<Userbook>, next: usize, shown: Vec<FrontEndUserbook>) -> (res: (UserbooksState, Action))
    requires
        next <= userbooks.len(),
    ensures
        userbooks_advance(userbooks@, next as int, shown@, res.0, res.1),
        userbooks_wf(res.0),
        res.0 is Done || userbooks_rank(res.0) == (1nat, (userbooks.len() - next) as nat),
{
    if next < userbooks.len() {
        let book_id = userbooks[next].book_id;
        (UserbooksState::AwaitBook { userbooks, next, shown }, Action::Run(Query::BookById(book_id)))
    } else {
        (UserbooksState::Done, Action::Respond(Reply::Userbooks(shown)))
    }
}

/// Takes one step of a listing of a user's loans.
pub fn userbooks_step(state: UserbooksState, event: Event) -> (res: (UserbooksState, Action))
    requires
        userbooks_wf(state),
    ensures
        userbooks_transition(state, event, res.0, res.1),
        userbooks_wf(res.0),
        res.1 is Run ==> rank_below(userbooks_rank(res.0), userbooks_rank(state)),
        !(res.1 is Run) ==> res.0 is Done && res.1 !is Fetch,
{
    match state {
        UserbooksState::AwaitVerdict { token } => match event {
            Event::Page(page) => match verify_outcome(&page) {
                Err(fault) => (UserbooksState::Done, Action::Abort(fault)),
                Ok(verified) => if verified {
                    (UserbooksState::AwaitUser, Action::Run(Query::UserByUid(token)))
                } else {
                    (UserbooksState::Done, Action::Respond(Reply::Nothing))
                },
            },
            _ => (UserbooksState::Done, Action::Abort(Fault::UnexpectedEvent)),
        },
        UserbooksState::AwaitUser => match event {
            Event::User(user) => (UserbooksState::AwaitUserbooks, Action::Run(Query::UserbooksOfUser(user.user_id))),
            Event::Failed(message) => (UserbooksState::Done, Action::Respond(Reply::Text(message))),
            _ => (UserbooksState::Done, Action::Abort(Fault::UnexpectedEvent)),
        },
        UserbooksState::AwaitUserbooks => match event {
            Event::Userbooks(loans) => userbooks_continue(loans, 0, Vec::new()),
            Event::Failed(message) => (UserbooksState::Done, Action::Respond(Reply::Text(message))),
            _ => (UserbooksState::Done, Action::Abort(Fault::UnexpectedEvent)),
        },
        UserbooksState::AwaitBook { userbooks, next, shown } => match event {
            Event::Book(book) => {
                let loan = &userbooks[next];
                let entry = FrontEndUserbook {
                    title: book.title,
                    isbn13: book.isbn13,
                    authors: book.authors,
                    borrow_date: loan.borrow_date,
                    return_date: loan.return_date,
                };
                let mut shown = shown;
                shown.push(entry);
                userbooks_continue(userbooks, next + 1, shown)
            },
            Event::Failed(message) => (UserbooksState::Done, Action::Respond(Reply::Text(message))),
            _ => (UserbooksState::Done, Action::Abort(Fault::UnexpectedEvent)),
        },
        UserbooksState::Done => (UserbooksState::Done, Action::Abort(Fault::UnexpectedEvent)),
    }
}

/// Where the sale of a book to the service stands.
pub enum SellState {
    /// Waiting for the reply of the token check.
    AwaitVerdict { isbn: String },
    /// Raising the stock of the book.
    Increasing(StockState),
    /// Finished.
    Done,
}

/// How far a sale still has to go.
pub open spec fn sell_rank(state: SellState) -> nat {
    match state {
        SellState::AwaitVerdict { .. } => 3,
        SellState::Increasing(inner) => stock_pending(inner),
        SellState::Done => 0,
    }
}

/// Starts the sale of the book with ISBN `isbn` by the caller with `token`:
/// asks the authentication service whether the token is valid.
pub fn sell_start(isbn: String, token: &str) -> (res: (SellState, Action))
    ensures
        res.0 == (SellState::AwaitVerdict { isbn }),
        res.1 matches Action::Fetch(url) && url@ == verify_address(token@),
{
    (SellState::AwaitVerdict { isbn }, Action::Fetch(verify_url(token)))
}

/// One step of a sale: a reply of the token check that is not JSON stops
/// the sale, a token that does not count as verified gets no body at all;
/// otherwise the stock of the book is raised by one and the sale answers
/// what that stock change answers.
pub open spec fn sell_transition(state: SellState, event: Event, next: SellState, action: Action) -> bool {
    let unexpected = next is Done && action == Action::Abort(Fault::UnexpectedEvent);
    match state {
        SellState::AwaitVerdict { isbn } => match event {
            Event::Page(page) => match verify_decision_of(page_view(&page)) {
                Err(fault) => next is Done && action == Action::Abort(fault),
                Ok(false) => next is Done && action == Action::Respond(Reply::Nothing),
                Ok(true) => {
                    &&& next == SellState::Increasing(StockState::AwaitBook { isbn, change: StockChange::Increase(1) })
                    &&& action matches Action::Run(Query::BookByIsbn(i)) && i@ == isbn@
                },
            },
            _ => unexpected,
        },
        SellState::Increasing(inner) => exists|inner_next: StockState|
            #![trigger stock_transition(inner, event, inner_next, action)]
            stock_transition(inner, event, inner_next, action) && if action is Run {
                next == SellState::Increasing(inner_next)
            } else {
                next is Done
            },
        SellState::Done => unexpected,
    }
}

/// Takes one step of a sale.
pub fn sell_step(state: SellState, event: Event) -> (res: (SellState, Action))
    ensures
        sell_transition(state, event, res.0, res.1),
        res.1 is Run ==> sell_rank(res.0) < sell_rank(state),
        !(res.1 is Run) ==> res.0 is Done && res.1 !is Fetch,
{
    match state {
        SellState::AwaitVerdict { isbn } => match event {
            Event::Page(page) => match verify_outcome(&page) {
                Err(fault) => (SellState::Done, Action::Abort(fault)),
                Ok(verified) => if verified {
                    let (inner, action) = stock_start(isbn, StockChange::Increase(1));
                    (SellState::Increasing(inner), action)
                } else {
                    (SellState::Done, Action::Respond(Reply::Nothing))
                },
            },
            _ => (SellState::Done, Action::Abort(Fault::UnexpectedEvent)),
        },
        SellState::Increasing(inner) => {
            let ghost old_inner = inner;
            let ghost old_event = event;
            let (inner_next, action) = stock_step(inner, event);
            let ghost gn = inner_next;
            let res = match action {
                Action::Run(query) => (SellState::Increasing(inner_next), Action::Run(query)),
                other => (SellState::Done, other),
            };
            proof {
                assert(stock_transition(old_inner, old_event, gn, res.1));
            }
            res
        },
        SellState::Done => (SellState::Done, Action::Abort(Fault::UnexpectedEvent)),
    }
}

/// From `state`, the sale answers the events `events` with the actions
/// `actions`, one action per event, each step by [`sell_transition`].
pub open spec fn sell_runs(state: SellState, events: Seq<Event>, actions: Seq<Action>) -> bool
    decreases events.len(),
{
    &&& events.len() == actions.len()
    &&& events.len() > 0 ==> exists|next: SellState|
        #[trigger] sell_transition(state, events[0], next, actions[0])
            && sell_runs(next, events.drop_first(), actions.drop_first())
}

/// A sale that is raising a stock acts as the stock change itself does.
proof fn lemma_raising_sale_runs_as_stock_change(sale: SellState, change: StockState, events: Seq<Event>, actions: Seq<Action>)
    requires
        sale == SellState::Increasing(change) || (sale is Done && change is Done),
        sell_runs(sale, events, actions),
    ensures
        stock_runs(change, events, actions),
    decreases events.len(),
{
    if events.len() > 0 {
        let next = choose|next: SellState|
            #[trigger] sell_transition(sale, events[0], next, actions[0])
                && sell_runs(next, events.drop_first(), actions.drop_first());
        let change_next = if sale is Done {
            StockState::Done
        } else {
            choose|inner_next: StockState|
                #[trigger] stock_transition(change, events[0], inner_next, actions[0]) && if actions[0] is Run {
                    next == SellState::Increasing(inner_next)
                } else {
                    next is Done
                }
        };
        assert(stock_transition(change, events[0], change_next, actions[0]));
        lemma_raising_sale_runs_as_stock_change(next, change_next, events.drop_first(), actions.drop_first());
    }
}

/// A sale by a caller whose token the check verifies is the raising of the
/// book's stock by one: its first action is the lookup that starts that
/// stock change, and on the same later answers it takes the same actions.
pub proof fn lemma_sale_is_increase_by_one(isbn: String, page: Option<String>, events: Seq<Event>, actions: Seq<Action>)
    requires
        verify_decision_of(page_view(&page)) == Ok::<bool, Fault>(true),
        sell_runs(SellState::AwaitVerdict { isbn }, seq![Event::Page(page)] + events, actions),
    ensures
        actions.len() == events.len() + 1,
        actions[0] matches Action::Run(Query::BookByIsbn(i)) && i@ == isbn@,
        stock_runs(StockState::AwaitBook { isbn, change: StockChange::Increase(1) }, events, actions.drop_first()),
{
    let all = seq![Event::Page(page)] + events;
    assert(all[0] == Event::Page(page));
    assert(all.drop_first() =~= events);
    let next = choose|next: SellState|
        #[trigger] sell_transition(SellState::AwaitVerdict { isbn }, all[0], next, actions[0])
            && sell_runs(next, all.drop_first(), actions.drop_first());
    lemma_raising_sale_runs_as_stock_change(
        next,
        StockState::AwaitBook { isbn, change: StockChange::Increase(1) },
        events,
        actions.drop_first(),
    );
}

/// A loan started at the authentication step never lends: the
/// authentication reply ends it with "Could not authenticate" or a stop,
/// never with "Succesfully borrowed book.".
pub proof fn lemma_borrow_start_never_lends(event: Event, next: BorrowState, action: Action)
    requires
        borrow_transition(BorrowState::AwaitWhoami, event, next, action),
    ensures
        next is Done,
        !responds_text(action, "Succesfully borrowed book."@),
{
    reveal_strlit("Could not authenticate");
    reveal_strlit("Succesfully borrowed book.");
    assert("Could not authenticate"@[0] != "Succesfully borrowed book."@[0]);
}

/// `entry` shows the loan `loan` of the book `book`: the book's title,
/// ISBN-13 and authors with the loan's borrow and return days.
pub open spec fn shows_loan_of(entry: FrontEndUserbook, book: Book, loan: Userbook) -> bool {
    &&& entry.title == book.title
    &&& entry.isbn13 == book.isbn13
    &&& entry.authors == book.authors
    &&& entry.borrow_date == loan.borrow_date
    &&& entry.return_date == loan.return_date
}

/// After the book of loan `i` is found, the listing adds one entry that
/// shows that loan of that book, field by field, after the entries before;
/// it goes on with the book of loan `i + 1` or, after the last loan, answers
/// with all the entries.
pub proof fn lemma_userbooks_after_book(
    userbooks: Vec<Userbook>,
    i: usize,
    shown: Vec<FrontEndUserbook>,
    book: Book,
    next: UserbooksState,
    action: Action,
)
    requires
        i < userbooks@.len(),
        userbooks_transition(UserbooksState::AwaitBook { userbooks, next: i, shown }, Event::Book(book), next, action),
    ensures
        ({
            let entries = if i + 1 < userbooks@.len() {
                match next {
                    UserbooksState::AwaitBook { shown: s, .. } => s@,
                    _ => Seq::empty(),
                }
            } else {
                match action {
                    Action::Respond(Reply::Userbooks(s)) => s@,
                    _ => Seq::empty(),
                }
            };
            &&& entries.len() == shown@.len() + 1
            &&& entries.subrange(0, shown@.len() as int) == shown@
            &&& shows_loan_of(entries[shown@.len() as int], book, userbooks@[i as int])
        }),
        i + 1 < userbooks@.len() ==> (next matches UserbooksState::AwaitBook { userbooks: u, next: n, .. }
            && u@ == userbooks@ && n == i + 1),
        i + 1 < userbooks@.len() ==> action == Action::Run(Query::BookById(userbooks@[i + 1].book_id)),
        i + 1 >= userbooks@.len() ==> next is Done && action is Respond,
{
    let pushed = shown@.push(shown_loan(book.title, book.isbn13, book.authors, userbooks@[i as int]));
    assert(pushed.subrange(0, shown@.len() as int) =~= shown@);
}

/// From `state`, the listing of a user's loans answers the events `events`
/// with the actions `actions`, one action per event.
pub open spec fn userbooks_runs(state: UserbooksState, events: Seq<Event>, actions: Seq<Action>) -> bool
    decreases events.len(),
{
    &&& events.len() == actions.len()
    &&& events.len() > 0 ==> exists|next: UserbooksState|
        #[trigger] userbooks_transition(state, events[0], next, actions[0])
            && userbooks_runs(next, events.drop_first(), actions.drop_first())
}

/// The answers that find each of `books`, one after another.
pub open spec fn books_found(books: Seq<Book>) -> Seq<Event> {
    books.map_values(|b: Book| Event::Book(b))
}

/// When the book of every remaining loan is found, the listing asks for the
/// book of each loan in turn and answers with the entries shown before
/// followed by one entry per remaining loan, in loan order, each showing that
/// loan of its book.
pub proof fn lemma_userbooks_show_every_loan(
    state: UserbooksState,
    userbooks: Seq<Userbook>,
    i: int,
    shown: Seq<FrontEndUserbook>,
    found: Seq<Book>,
    actions: Seq<Action>,
)
    requires
        state matches UserbooksState::AwaitBook { userbooks: u, next: n, shown: s } && u@ == userbooks && n == i
            && s@ == shown,
        0 <= i < userbooks.len(),
        found.len() == userbooks.len() - i,
        userbooks_runs(state, books_found(found), actions),
    ensures
        actions.len() == found.len(),
        actions.last() matches Action::Respond(Reply::Userbooks(r)) && r@.len() == shown.len() + found.len()
            && r@.subrange(0, shown.len() as int) == shown
            && forall|k: int| 0 <= k < found.len() ==> shows_loan_of(#[trigger] r@[shown.len() + k], found[k], userbooks[i + k]),
        forall|k: int| 0 <= k < found.len() - 1 ==> #[trigger] actions[k]
            == Action::Run(Query::BookById(userbooks[i + k + 1].book_id)),
    decreases found.len(),
{
    let events = books_found(found);
    let next = choose|next: UserbooksState|
        #[trigger] userbooks_transition(state, events[0], next, actions[0])
            && userbooks_runs(next, events.drop_first(), actions.drop_first());
    let entry = shown_loan(found[0].title, found[0].isbn13, found[0].authors, userbooks[i]);
    let shown1 = shown.push(entry);
    if i + 1 < userbooks.len() {
        assert(books_found(found).drop_first() =~= books_found(found.drop_first()));
        lemma_userbooks_show_every_loan(next, userbooks, i + 1, shown1, found.drop_first(), actions.drop_first());
        assert(actions.last() == actions.drop_first().last());
        match actions.last() {
            Action::Respond(Reply::Userbooks(r)) => {
                assert(r@.subrange(0, shown.len() as int) =~= r@.subrange(0, shown1.len() as int).subrange(0, shown.len() as int));
                assert(r@.subrange(0, shown.len() as int) =~= shown);
                assert forall|k: int| 0 <= k < found.len() implies shows_loan_of(#[trigger] r@[shown.len() + k], found[k], userbooks[i + k]) by {
                    if k == 0 {
                        assert(r@[shown.len() as int] == r@.subrange(0, shown1.len() as int)[shown.len() as int]);
                    } else {
                        assert(shows_loan_of(r@[shown1.len() + (k - 1)], found.drop_first()[k - 1], userbooks[i + 1 + (k - 1)]));
                    }
                }
            },
            _ => {},
        }
        assert forall|k: int| 0 <= k < found.len() - 1 implies #[trigger] actions[k]
            == Action::Run(Query::BookById(userbooks[i + k + 1].book_id)) by {
            if k > 0 {
                assert(actions[k] == actions.drop_first()[k - 1]);
            }
        }
    } else {
        match actions[0] {
            Action::Respond(Reply::Userbooks(r)) => {
                assert(r@.subrange(0, shown.len() as int) =~= shown);
            },
            _ => {},
        }
    }
}

/// A loan after authentication: the book found by ISBN gives the coursebook
/// lookup of its id; the coursebook row gives the course lookup by the row's
/// book id; the course gives the user lookup by the token and fixes the due
/// day by the course's last period (2023-11-30, 2023-01-30, 2024-03-30,
/// 2023-06-30 for periods 1 to 4, none for 5, 2023-12-31 otherwise); the user
/// gives the stored row: this book, dated the day of the request, due that
/// day, for this user; the stored row gives the decrease of the book's stock.
/// A failure on the way answers with "Error: " and the failure's text.
pub proof fn lemma_borrow_records_the_loan(state: BorrowState, event: Event, next: BorrowState, action: Action)
    requires
        borrow_transition(state, event, next, action),
    ensures
        match (state, event) {
            (BorrowState::AwaitBook { isbn, token, today }, Event::Book(b)) => {
                &&& action == Action::Run(Query::CoursebookOfBook(b.bid))
                &&& next == (BorrowState::AwaitCoursebook { isbn, token, today, bid: b.bid })
            },
            (BorrowState::AwaitCoursebook { isbn, token, today, bid }, Event::Coursebook(row)) => {
                &&& action == Action::Run(Query::CourseById(row.coursebook_book_id))
                &&& next == (BorrowState::AwaitCourse { isbn, token, today, bid })
            },
            (BorrowState::AwaitCourse { isbn, token, today, bid }, Event::Course(c)) => {
                let p = c.period_end;
                if p == 5 {
                    next is Done && action == Action::Abort(Fault::NoReturnDate)
                } else {
                    let due = if p == 1 {
                        Date { year: 2023, month: 11, day: 30 }
                    } else if p == 2 {
                        Date { year: 2023, month: 1, day: 30 }
                    } else if p == 3 {
                        Date { year: 2024, month: 3, day: 30 }
                    } else if p == 4 {
                        Date { year: 2023, month: 6, day: 30 }
                    } else {
                        Date { year: 2023, month: 12, day: 31 }
                    };
                    &&& action == Action::Run(Query::UserByUid(token))
                    &&& next == (BorrowState::AwaitUser { isbn, today, bid, return_date: due })
                }
            },
            (BorrowState::AwaitUser { isbn, today, bid, return_date }, Event::User(u)) => {
                &&& action == Action::Run(Query::InsertUserbook {
                    book_id: bid,
                    borrow_date: today,
                    return_date: return_date,
                    user_id: u.user_id,
                })
                &&& next == (BorrowState::AwaitInsert { isbn })
            },
            (BorrowState::AwaitInsert { isbn }, Event::Rows(_)) => {
                &&& next == BorrowState::Decreasing(StockState::AwaitBook { isbn, change: StockChange::Decrease })
                &&& action matches Action::Run(Query::BookByIsbn(i)) && i@ == isbn@
            },
            (BorrowState::AwaitBook { .. }, Event::Failed(m)) => next is Done && responds_text(action, "Error: "@ + m@),
            (BorrowState::AwaitCoursebook { .. }, Event::Failed(m)) => next is Done && responds_text(action, "Error: "@ + m@),
            (BorrowState::AwaitCourse { .. }, Event::Failed(m)) => next is Done && responds_text(action, "Error: "@ + m@),
            (BorrowState::AwaitUser { .. }, Event::Failed(m)) => next is Done && responds_text(action, "Error: "@ + m@),
            (BorrowState::AwaitInsert { .. }, Event::Failed(m)) => next is Done && responds_text(action, "Error: "@ + m@),
            _ => true,
        },
{
}

/// While a loan lowers the stock, the stock change's queries are passed on,
/// its stops are passed on, and whatever the stock change answers, the loan
/// answers "Succesfully borrowed book.".
pub proof fn lemma_borrow_ends_after_decrease(inner: StockState, event: Event, next: BorrowState, action: Action)
    requires
        borrow_transition(BorrowState::Decreasing(inner), event, next, action),
    ensures
        exists|inner_next: StockState, inner_action: Action|
            #![trigger stock_transition(inner, event, inner_next, inner_action)]
            stock_transition(inner, event, inner_next, inner_action) && match inner_action {
                Action::Run(q) => action == Action::Run(q) && next == BorrowState::Decreasing(inner_next),
                Action::Respond(_) => next is Done && responds_text(action, "Succesfully borrowed book."@),
                Action::Abort(f) => next is Done && action == Action::Abort(f),
                Action::Fetch(_) => false,
            },
{
}

/// A return after authentication: the user found by uid gives the lookup of
/// the book by ISBN; the book gives the deletion of this user's loans of this
/// book; the deletion gives the increase of the book's stock by one, after
/// which the return answers "Succesfully returned book.". A failed lookup
/// answers with "Error: " and the failure's text, a failed deletion with the
/// failure's text alone.
pub proof fn lemma_return_deletes_the_loans(state: ReturnState, event: Event, next: ReturnState, action: Action)
    requires
        return_transition(state, event, next, action),
    ensures
        match (state, event) {
            (ReturnState::AwaitUser { isbn }, Event::User(u)) => {
                &&& next == (ReturnState::AwaitBook { isbn, user_id: u.user_id })
                &&& action matches Action::Run(Query::BookByIsbn(i)) && i@ == isbn@
            },
            (ReturnState::AwaitBook { isbn, user_id }, Event::Book(b)) => {
                &&& action == Action::Run(Query::DeleteUserbooks { book_id: b.bid, user_id })
                &&& next == (ReturnState::AwaitDelete { isbn })
            },
            (ReturnState::AwaitDelete { isbn }, Event::Rows(_)) => {
                &&& next == ReturnState::Increasing(StockState::AwaitBook { isbn, change: StockChange::Increase(1) })
                &&& action matches Action::Run(Query::BookByIsbn(i)) && i@ == isbn@
            },
            (ReturnState::AwaitUser { .. }, Event::Failed(m)) => next is Done && responds_text(action, "Error: "@ + m@),
            (ReturnState::AwaitBook { .. }, Event::Failed(m)) => next is Done && responds_text(action, "Error: "@ + m@),
            (ReturnState::AwaitDelete { .. }, Event::Failed(m)) => next is Done && responds_text(action, m@),
            (ReturnState::Increasing(inner), _) => exists|inner_next: StockState, inner_action: Action|
                #![trigger stock_transition(inner, event, inner_next, inner_action)]
                stock_transition(inner, event, inner_next, inner_action) && match inner_action {
                    Action::Run(q) => action == Action::Run(q) && next == ReturnState::Increasing(inner_next),
                    Action::Respond(_) => next is Done && responds_text(action, "Succesfully returned book."@),
                    Action::Abort(f) => next is Done && action == Action::Abort(f),
                    Action::Fetch(_) => false,
                },
            _ => true,
        },
{
}

/// A listing of loans: a token that the check does not verify gets no body,
/// a check reply that is not JSON stops the listing, a verified token gives
/// the user lookup by the token; the user gives the lookup of the user's
/// loans; the loans give the book lookup of the first loan, or an empty
/// listing when there are none. Failures answer with the failure's text
/// alone.
pub proof fn lemma_userbooks_lookups(state: UserbooksState, event: Event, next: UserbooksState, action: Action)
    requires
        userbooks_transition(state, event, next, action),
    ensures
        match (state, event) {
            (UserbooksState::AwaitVerdict { token }, Event::Page(page)) => match verify_decision_of(page_view(&page)) {
                Ok(true) => next is AwaitUser && action == Action::Run(Query::UserByUid(token)),
                Ok(false) => next is Done && action == Action::Respond(Reply::Nothing),
                Err(f) => next is Done && action == Action::Abort(f),
            },
            (UserbooksState::AwaitUser, Event::User(u)) => next is AwaitUserbooks
                && action == Action::Run(Query::UserbooksOfUser(u.user_id)),
            (UserbooksState::AwaitUserbooks, Event::Userbooks(loans)) => if loans@.len() == 0 {
                &&& next is Done
                &&& action matches Action::Respond(Reply::Userbooks(r)) && r@.len() == 0
            } else {
                action == Action::Run(Query::BookById(loans@[0].book_id))
            },
            (UserbooksState::AwaitUser, Event::Failed(m)) => next is Done && responds_text(action, m@),
            (UserbooksState::AwaitUserbooks, Event::Failed(m)) => next is Done && responds_text(action, m@),
            (UserbooksState::AwaitBook { .. }, Event::Failed(m)) => next is Done && responds_text(action, m@),
            _ => true,
        },
{
}

/// A sale whose token the check does not verify gets no body, and a check
/// reply that is not JSON stops it.
pub proof fn lemma_sale_needs_verified_token(isbn: String, page: Option<String>, next: SellState, action: Action)
    requires
        sell_transition(SellState::AwaitVerdict { isbn }, Event::Page(page), next, action),
    ensures
        verify_decision_of(page_view(&page)) == Ok::<bool, Fault>(false) ==> next is Done
            && action == Action::Respond(Reply::Nothing),
        verify_decision_of(page_view(&page)) is Err ==> next is Done && action is Abort,
{
}

} // verus!
