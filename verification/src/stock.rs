//! Changing the stock of a book: look the book up by its ISBN, work out the
//! new stock, and write it back.

use vstd::prelude::*;
use crate::models::Book;
use crate::protocol::{responds_text, Action, Event, Fault, Query, Reply};
use crate::text::{error_line, error_text};

verus! {

/// How a stock changes.
#[derive(Clone, Copy, Debug, PartialEq, Eq, Structural)]
pub enum StockChange {
    /// Up by the quantity.
    Increase(i32),
    /// Down by one.
    Decrease,
}

/// `x` fits in an `i32`.
pub open spec fn fits_i32(x: int) -> bool {
    i32::MIN <= x <= i32::MAX
}

/// The stock after `change`; a book without a stock keeps none.
pub open spec fn changed_stock(stock: Option<i32>, change: StockChange) -> Option<int> {
    match stock {
        None => None,
        Some(s) => Some(
            match change {
                StockChange::Increase(q) => s + q,
                StockChange::Decrease => s - 1,
            },
        ),
    }
}

/// An optional `i32` taken as an optional integer.
pub open spec fn as_int(stock: Option<i32>) -> Option<int> {
    match stock {
        None => None,
        Some(s) => Some(s as int),
    }
}

/// `change` would take `stock` out of the `i32` range.
pub open spec fn overflows(stock: Option<i32>, change: StockChange) -> bool {
    changed_stock(stock, change) matches Some(v) && !fits_i32(v)
}

/// The stock after `change`, or `None` when it does not fit in an `i32`.
pub fn adjust_stock(stock: Option<i32>, change: StockChange) -> (res: Option<Option<i32>>)
    ensures
        res is None <==> overflows(stock, change),
        res matches Some(new_stock) ==> as_int(new_stock) == changed_stock(stock, change),
{
    match stock {
        None => Some(None),
        Some(s) => {
            let new_stock = match change {
                StockChange::Increase(q) => s.checked_add(q),
                StockChange::Decrease => s.checked_sub(1),
            };
            match new_stock {
                Some(n) => Some(Some(n)),
                None => None,
            }
        },
    }
}

/// Raising a stock by one and then lowering it by one gives the stock back,
/// as a return followed by a loan of the same book does.
pub proof fn lemma_increase_then_decrease(stock: Option<i32>)
    requires
        !overflows(stock, StockChange::Increase(1)),
    ensures
        changed_stock(stock, StockChange::Increase(1)) matches Some(v) ==> v - 1 == stock->0,
        changed_stock(stock, StockChange::Increase(1)) is None <==> stock is None,
{
}

/// Lowering a stock by one and then raising it by one gives the stock back,
/// as a loan followed by the return of the same book does.
pub proof fn lemma_decrease_then_increase(stock: Option<i32>)
    requires
        !overflows(stock, StockChange::Decrease),
    ensures
        changed_stock(stock, StockChange::Decrease) matches Some(v) ==> v + 1 == stock->0,
        changed_stock(stock, StockChange::Decrease) is None <==> stock is None,
{
}

/// Where a stock change stands.
pub enum StockState {
    /// Waiting for the book with this ISBN.
    AwaitBook { isbn: String, change: StockChange },
    /// Waiting for the update of the stock.
    AwaitUpdate { change: StockChange },
    /// Finished.
    Done,
}

/// The line that reports a stock change that went through.
pub open spec fn stock_success_line(change: StockChange) -> Seq<char> {
    match change {
        StockChange::Increase(_) => "Succesfully increased stock."@,
        StockChange::Decrease => "Succesfully decreased stock"@,
    }
}

/// Number of actions that a stock change can still ask for.
pub open spec fn stock_pending(state: StockState) -> nat {
    match state {
        StockState::AwaitBook { .. } => 2,
        StockState::AwaitUpdate { .. } => 1,
        StockState::Done => 0,
    }
}

/// `action` writes `stock` (as integers) to the books with ISBN `isbn`.
pub open spec fn sets_stock(action: Action, isbn: Seq<char>, stock: Option<int>) -> bool {
    action matches Action::Run(Query::SetStock { isbn: i, stock: s }) && i@ == isbn && as_int(s) == stock
}

/// One step of a stock change.
///
/// Waiting for the book: a found book gets its stock changed and written
/// back, unless the new stock does not fit in an `i32`. A failed lookup
/// ends an increase with the error line; a decrease writes an empty stock
/// instead. Waiting for the update: success ends with the success line, a
/// failure with the error line. Any other answer stops the change.
pub open spec fn stock_transition(state: StockState, event: Event, next: StockState, action: Action) -> bool {
    match state {
        StockState::AwaitBook { isbn, change } => match event {
            Event::Book(book) => if overflows(book.stock, change) {
                next is Done && action == Action::Abort(Fault::StockOverflow)
            } else {
                next == (StockState::AwaitUpdate { change })
                    && sets_stock(action, isbn@, changed_stock(book.stock, change))
            },
            Event::Failed(message) => match change {
                StockChange::Increase(_) => next is Done && responds_text(action, error_line(message@)),
                StockChange::Decrease => next == (StockState::AwaitUpdate { change })
                    && sets_stock(action, isbn@, None),
            },
            _ => next is Done && action == Action::Abort(Fault::UnexpectedEvent),
        },
        StockState::AwaitUpdate { change } => match event {
            Event::Rows(_) => next is Done && responds_text(action, stock_success_line(change)),
            Event::Failed(message) => next is Done && responds_text(action, error_line(message@)),
            _ => next is Done && action == Action::Abort(Fault::UnexpectedEvent),
        },
        StockState::Done => next is Done && action == Action::Abort(Fault::UnexpectedEvent),
    }
}

/// Starts changing the stock of the book with ISBN `isbn`: looks the book up.
pub fn stock_start(isbn: String, change: StockChange) -> (res: (StockState, Action))
    ensures
        res.0 == (StockState::AwaitBook { isbn, change }),
        res.1 matches Action::Run(Query::BookByIsbn(i)) && i@ == isbn@,
{
    let lookup = isbn.clone();
    (StockState::AwaitBook { isbn, change }, Action::Run(Query::BookByIsbn(lookup)))
}

/// Takes one step of a stock change.
pub fn stock_step(state: StockState, event: Event) -> (res: (StockState, Action))
    ensures
        stock_transition(state, event, res.0, res.1),
        res.1 is Run ==> stock_pending(res.0) < stock_pending(state),
        !(res.1 is Run) ==> res.0 is Done && res.1 !is Fetch,
{
    match state {
        StockState::AwaitBook { isbn, change } => match event {
            Event::Book(book) => match adjust_stock(book.stock, change) {
                None => (StockState::Done, Action::Abort(Fault::StockOverflow)),
                Some(stock) => (StockState::AwaitUpdate { change }, Action::Run(Query::SetStock { isbn, stock })),
            },
            Event::Failed(message) => match change {
                StockChange::Increase(_) => (
                    StockState::Done,
                    Action::Respond(Reply::Text(error_text(message.as_str()))),
                ),
                StockChange::Decrease => (
                    StockState::AwaitUpdate { change },
                    Action::Run(Query::SetStock { isbn, stock: None }),
                ),
            },
            _ => (StockState::Done, Action::Abort(Fault::UnexpectedEvent)),
        },
        StockState::AwaitUpdate { change } => match event {
            Event::Rows(_) => {
                let line = match change {
                    StockChange::Increase(_) => String::from_str("Succesfully increased stock."),
                    StockChange::Decrease => String::from_str("Succesfully decreased stock"),
                };
                (StockState::Done, Action::Respond(Reply::Text(line)))
            },
            Event::Failed(message) => (
                StockState::Done,
                Action::Respond(Reply::Text(error_text(message.as_str()))),
            ),
            _ => (StockState::Done, Action::Abort(Fault::UnexpectedEvent)),
        },
        StockState::Done => (StockState::Done, Action::Abort(Fault::UnexpectedEvent)),
    }
}

/// From `state`, the stock change answers the events `events` with the
/// actions `actions`, one action per event, each step by
/// [`stock_transition`].
pub open spec fn stock_runs(state: StockState, events: Seq<Event>, actions: Seq<Action>) -> bool
    decreases events.len(),
{
    &&& events.len() == actions.len()
    &&& events.len() > 0 ==> exists|next: StockState|
        #[trigger] stock_transition(state, events[0], next, actions[0])
            && stock_runs(next, events.drop_first(), actions.drop_first())
}

/// A found book gets its stock written back to the books with the same ISBN:
/// one less for a decrease, `q` more for an increase by `q`, and no stock for
/// a book that has none; a new stock outside the `i32` range stops the change.
pub proof fn lemma_found_book_stock(isbn: String, change: StockChange, book: Book, next: StockState, action: Action)
    requires
        stock_transition(StockState::AwaitBook { isbn, change }, Event::Book(book), next, action),
    ensures
        match book.stock {
            None => {
                &&& next == (StockState::AwaitUpdate { change })
                &&& action matches Action::Run(Query::SetStock { isbn: i, stock: None }) && i@ == isbn@
            },
            Some(s) => {
                let wanted: int = match change {
                    StockChange::Decrease => s - 1,
                    StockChange::Increase(q) => s + q,
                };
                if i32::MIN <= wanted <= i32::MAX {
                    &&& next == (StockState::AwaitUpdate { change })
                    &&& action matches Action::Run(Query::SetStock { isbn: i, stock: Some(t) }) && i@ == isbn@
                        && t == wanted
                } else {
                    next is Done && action == Action::Abort(Fault::StockOverflow)
                }
            },
        },
{
}

/// A book that is not found ends an increase with the error line and makes
/// a decrease clear the stock of the books with that ISBN.
pub proof fn lemma_missing_book_stock(isbn: String, change: StockChange, message: String, next: StockState, action: Action)
    requires
        stock_transition(StockState::AwaitBook { isbn, change }, Event::Failed(message), next, action),
    ensures
        change is Increase ==> next is Done && responds_text(action, "Error: "@ + message@),
        change is Decrease ==> next == (StockState::AwaitUpdate { change }),
        change is Decrease ==> (action matches Action::Run(Query::SetStock { isbn: i, stock: None }) && i@ == isbn@),
{
}

/// The update of the stock ends the change: with "Succesfully increased
/// stock." or "Succesfully decreased stock" when it goes through, with the
/// error line when it fails.
pub proof fn lemma_stock_update_reply(change: StockChange, event: Event, next: StockState, action: Action)
    requires
        stock_transition(StockState::AwaitUpdate { change }, event, next, action),
    ensures
        next is Done,
        event is Rows && change is Increase ==> responds_text(action, "Succesfully increased stock."@),
        event is Rows && change is Decrease ==> responds_text(action, "Succesfully decreased stock"@),
        event matches Event::Failed(message) ==> responds_text(action, "Error: "@ + message@),
{
}

} // verus!
