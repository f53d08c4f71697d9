use courselend::catalog::{
    book_by_id_start, book_by_isbn_start, book_lookup_step, list_books_start, list_books_step,
};
use courselend::courses::{
    next_period_after_authentication, next_period_query, next_period_start, next_period_step,
    related_courses_start, related_courses_step, NextPeriodState,
};
use courselend::loans::{
    borrow_after_authentication, borrow_start, borrow_step, return_after_authentication, return_start,
    return_step, sell_start, sell_step, userbooks_start, userbooks_step, BorrowState,
};
use courselend::models::{Book, Course, Coursebook, Date, User, Userbook};
use courselend::protocol::{Action, Event, Fault, Query, Reply};
use courselend::stock::{adjust_stock, stock_start, stock_step, StockChange};

fn book(bid: i32, isbn: &str, stock: Option<i32>) -> Book {
    Book {
        bid,
        isbn13: Some(isbn.to_string()),
        title: format!("Title {}", bid),
        authors: "A. Author".to_string(),
        edition: None,
        stock,
        description: None,
    }
}

fn course(cid: i32, name: &str, period_end: i32) -> Course {
    Course {
        cid,
        course_name: name.to_string(),
        period_start: 1,
        period_end,
        term_start: 1,
        term_end: 1,
    }
}

fn user(user_id: i32, term: i32) -> User {
    User { user_id, subscription_status: true, term, year: 2023, uid: "uid".to_string() }
}

fn day(year: i32, month: u32, day: u32) -> Date {
    Date { year, month, day }
}

fn text_of(action: &Action) -> String {
    match action {
        Action::Respond(Reply::Text(t)) => t.clone(),
        _ => panic!("expected a text reply"),
    }
}

fn is_run(action: &Action) -> bool {
    matches!(action, Action::Run(_))
}

#[test]
fn stock_arithmetic() {
    assert_eq!(adjust_stock(Some(4), StockChange::Increase(3)), Some(Some(7)));
    assert_eq!(adjust_stock(Some(4), StockChange::Decrease), Some(Some(3)));
    assert_eq!(adjust_stock(None, StockChange::Increase(3)), Some(None));
    assert_eq!(adjust_stock(Some(i32::MAX), StockChange::Increase(1)), None);
    assert_eq!(adjust_stock(Some(i32::MIN), StockChange::Decrease), None);
    assert_eq!(adjust_stock(Some(0), StockChange::Decrease), Some(Some(-1)));
}

#[test]
fn increase_stock_flow() {
    let (s, a) = stock_start("978-1".to_string(), StockChange::Increase(5));
    assert!(matches!(&a, Action::Run(Query::BookByIsbn(i)) if i == "978-1"));
    let (s, a) = stock_step(s, Event::Book(book(1, "978-1", Some(2))));
    match &a {
        Action::Run(Query::SetStock { isbn, stock }) => {
            assert_eq!(isbn, "978-1");
            assert_eq!(*stock, Some(7));
        },
        _ => panic!("expected an update"),
    }
    let (_, a) = stock_step(s, Event::Rows(1));
    assert_eq!(text_of(&a), "Succesfully increased stock.");
}

#[test]
fn increase_stock_missing_book() {
    let (s, _) = stock_start("x".to_string(), StockChange::Increase(1));
    let (_, a) = stock_step(s, Event::Failed("Record not found".to_string()));
    assert_eq!(text_of(&a), "Error: Record not found");
}

#[test]
fn decrease_stock_missing_book_clears_stock() {
    let (s, _) = stock_start("x".to_string(), StockChange::Decrease);
    let (s, a) = stock_step(s, Event::Failed("Record not found".to_string()));
    match &a {
        Action::Run(Query::SetStock { isbn, stock }) => {
            assert_eq!(isbn, "x");
            assert_eq!(*stock, None);
        },
        _ => panic!("expected an update"),
    }
    let (_, a) = stock_step(s, Event::Rows(0));
    assert_eq!(text_of(&a), "Succesfully decreased stock");
}

#[test]
fn stock_overflow_aborts() {
    let (s, _) = stock_start("x".to_string(), StockChange::Increase(1));
    let (_, a) = stock_step(s, Event::Book(book(1, "x", Some(i32::MAX))));
    assert!(matches!(a, Action::Abort(Fault::StockOverflow)));
}

#[test]
fn stock_update_failure() {
    let (s, _) = stock_start("x".to_string(), StockChange::Decrease);
    let (s, _) = stock_step(s, Event::Book(book(1, "x", Some(3))));
    let (_, a) = stock_step(s, Event::Failed("deadlock".to_string()));
    assert_eq!(text_of(&a), "Error: deadlock");
}

#[test]
fn unexpected_event_aborts() {
    let (s, _) = stock_start("x".to_string(), StockChange::Decrease);
    let (_, a) = stock_step(s, Event::Rows(1));
    assert!(matches!(a, Action::Abort(Fault::UnexpectedEvent)));
}

#[test]
fn list_books_flow() {
    let (s, a) = list_books_start();
    assert!(matches!(a, Action::Run(Query::AllBooks)));
    let (_, a) = list_books_step(s, Event::Books(vec![book(1, "a", None), book(2, "b", Some(1))]));
    match a {
        Action::Respond(Reply::Books(books)) => {
            assert_eq!(books.len(), 2);
            assert_eq!(books[1].bid, 2);
        },
        _ => panic!("expected books"),
    }
    let (s, _) = list_books_start();
    let (_, a) = list_books_step(s, Event::Failed("down".to_string()));
    assert_eq!(text_of(&a), "Error: down");
}

#[test]
fn book_lookup_flows() {
    let (s, a) = book_by_isbn_start("978".to_string());
    assert!(matches!(&a, Action::Run(Query::BookByIsbn(i)) if i == "978"));
    let (_, a) = book_lookup_step(s, Event::Book(book(3, "978", None)));
    assert!(matches!(a, Action::Respond(Reply::Book(b)) if b.bid == 3));

    let (s, _) = book_by_isbn_start("978".to_string());
    let (_, a) = book_lookup_step(s, Event::Failed("Record not found".to_string()));
    assert_eq!(text_of(&a), "\"Error: Couldn't retrieve book with such ISBN13.\"");

    let (s, a) = book_by_id_start(9);
    assert!(matches!(a, Action::Run(Query::BookById(9))));
    let (_, a) = book_lookup_step(s, Event::Failed("Record not found".to_string()));
    assert_eq!(text_of(&a), "\"Error: Couldn't retrieve book with such bid.\"");
}

#[test]
fn related_courses_flow() {
    let (s, a) = related_courses_start(7);
    assert!(matches!(a, Action::Run(Query::CoursebooksOfBook(7))));
    let rows = vec![
        Coursebook { coursebook_book_id: 7, coursebook_course_id: 10 },
        Coursebook { coursebook_book_id: 7, coursebook_course_id: 11 },
        Coursebook { coursebook_book_id: 7, coursebook_course_id: 12 },
    ];
    let (s, a) = related_courses_step(s, Event::Coursebooks(rows));
    assert!(matches!(a, Action::Run(Query::CourseById(10))));
    let (s, a) = related_courses_step(s, Event::Course(course(10, "Algebra", 1)));
    assert!(matches!(a, Action::Run(Query::CourseById(11))));
    let (s, a) = related_courses_step(s, Event::Failed("Record not found".to_string()));
    assert!(matches!(a, Action::Run(Query::CourseById(12))));
    let (_, a) = related_courses_step(s, Event::Course(course(12, "Logic", 2)));
    assert_eq!(text_of(&a), "Algebra, Logic");
}

#[test]
fn related_courses_none_found() {
    let (s, _) = related_courses_start(7);
    let (_, a) = related_courses_step(s, Event::Coursebooks(Vec::new()));
    assert_eq!(text_of(&a), "");
    let (s, _) = related_courses_start(7);
    let (_, a) = related_courses_step(s, Event::Failed("down".to_string()));
    assert_eq!(text_of(&a), "Error: down");
}

#[test]
fn next_period_queries() {
    assert_eq!(next_period_query(1, 3), Some((2, 3)));
    assert_eq!(next_period_query(2, 3), Some((3, 4)));
    assert_eq!(next_period_query(3, 3), Some((4, 3)));
    assert_eq!(next_period_query(4, 3), Some((1, 4)));
    assert_eq!(next_period_query(2, i32::MAX), None);
    assert_eq!(next_period_query(1, i32::MAX), Some((2, i32::MAX)));
}

#[test]
fn authentication_never_admits() {
    let (s, a) = next_period_start("tok");
    assert!(matches!(&a, Action::Fetch(u) if u == "https://courseLend.akerhielm.nu/auth/whoami/tok"));
    let (_, a) = next_period_step(s, Event::Page(Some("{\"sub\":\"u1\"}".to_string())));
    assert_eq!(text_of(&a), "Could not authenticate");

    let (s, _) = borrow_start("tok");
    let (_, a) = borrow_step(s, Event::Page(None));
    assert_eq!(text_of(&a), "Could not authenticate");

    let (s, _) = return_start("tok");
    let (_, a) = return_step(s, Event::Page(Some("{\"sub\":null}".to_string())));
    assert!(matches!(a, Action::Abort(Fault::MissingSubject)));
}

#[test]
fn next_period_books_flow() {
    let (s, a) = next_period_after_authentication("tok".to_string(), day(2023, 12, 1));
    assert!(matches!(&a, Action::Run(Query::UserByUid(u)) if u == "tok"));
    let (s, a) = next_period_step(s, Event::User(user(1, 5)));
    assert!(matches!(a, Action::Run(Query::CoursesStarting { period: 3, term: 6 })));
    let (s, a) = next_period_step(s, Event::Courses(vec![course(20, "A", 3), course(21, "B", 3)]));
    assert!(matches!(a, Action::Run(Query::CoursebookOfCourse(20))));
    let (s, a) = next_period_step(s, Event::Failed("Record not found".to_string()));
    assert!(matches!(a, Action::Run(Query::CoursebookOfCourse(21))));
    let (s, a) = next_period_step(s, Event::Coursebook(Coursebook { coursebook_book_id: 5, coursebook_course_id: 21 }));
    assert!(matches!(a, Action::Run(Query::BookById(5))));
    let (s, a) = next_period_step(s, Event::Book(book(5, "x", None)));
    assert!(matches!(s, NextPeriodState::Done));
    match a {
        Action::Respond(Reply::Books(books)) => {
            assert_eq!(books.len(), 1);
            assert_eq!(books[0].bid, 5);
        },
        _ => panic!("expected books"),
    }
}

#[test]
fn next_period_outside_periods() {
    let (s, _) = next_period_after_authentication("tok".to_string(), day(2023, 7, 1));
    let (_, a) = next_period_step(s, Event::User(user(1, 5)));
    assert_eq!(text_of(&a), "Date outside of known periods");
}

#[test]
fn next_period_missing_book_aborts() {
    let (s, _) = next_period_after_authentication("tok".to_string(), day(2023, 9, 1));
    let (s, a) = next_period_step(s, Event::User(user(1, 5)));
    assert!(matches!(a, Action::Run(Query::CoursesStarting { period: 2, term: 5 })));
    let (s, _) = next_period_step(s, Event::Courses(vec![course(20, "A", 2)]));
    let (s, _) = next_period_step(s, Event::Coursebook(Coursebook { coursebook_book_id: 5, coursebook_course_id: 20 }));
    let (_, a) = next_period_step(s, Event::Failed("Record not found".to_string()));
    assert!(matches!(a, Action::Abort(Fault::MissingBook)));
}

#[test]
fn borrow_flow_after_authentication() {
    let today = day(2023, 9, 12);
    let (s, a) = borrow_after_authentication("978".to_string(), "tok".to_string(), today);
    assert!(matches!(&a, Action::Run(Query::BookByIsbn(i)) if i == "978"));
    let (s, a) = borrow_step(s, Event::Book(book(4, "978", Some(2))));
    assert!(matches!(a, Action::Run(Query::CoursebookOfBook(4))));
    let (s, a) = borrow_step(s, Event::Coursebook(Coursebook { coursebook_book_id: 4, coursebook_course_id: 30 }));
    assert!(matches!(a, Action::Run(Query::CourseById(4))));
    let (s, a) = borrow_step(s, Event::Course(course(4, "Algebra", 1)));
    assert!(matches!(&a, Action::Run(Query::UserByUid(u)) if u == "tok"));
    let (s, a) = borrow_step(s, Event::User(user(8, 1)));
    match &a {
        Action::Run(Query::InsertUserbook { book_id, borrow_date, return_date, user_id }) => {
            assert_eq!(*book_id, 4);
            assert_eq!(*borrow_date, today);
            assert_eq!(*return_date, day(2023, 11, 30));
            assert_eq!(*user_id, 8);
        },
        _ => panic!("expected an insert"),
    }
    let (s, a) = borrow_step(s, Event::Rows(1));
    assert!(matches!(&a, Action::Run(Query::BookByIsbn(i)) if i == "978"));
    let (s, a) = borrow_step(s, Event::Book(book(4, "978", Some(2))));
    assert!(matches!(&a, Action::Run(Query::SetStock { stock: Some(1), .. })));
    let (s, a) = borrow_step(s, Event::Failed("update failed".to_string()));
    assert!(matches!(s, BorrowState::Done));
    assert_eq!(text_of(&a), "Succesfully borrowed book.");
}

#[test]
fn borrow_period_five_has_no_return_date() {
    let (s, _) = borrow_after_authentication("978".to_string(), "tok".to_string(), day(2023, 9, 12));
    let (s, _) = borrow_step(s, Event::Book(book(4, "978", Some(2))));
    let (s, _) = borrow_step(s, Event::Coursebook(Coursebook { coursebook_book_id: 4, coursebook_course_id: 30 }));
    let (_, a) = borrow_step(s, Event::Course(course(4, "Algebra", 5)));
    assert!(matches!(a, Action::Abort(Fault::NoReturnDate)));
}

#[test]
fn borrow_missing_book() {
    let (s, _) = borrow_after_authentication("978".to_string(), "tok".to_string(), day(2023, 9, 12));
    let (_, a) = borrow_step(s, Event::Failed("Record not found".to_string()));
    assert_eq!(text_of(&a), "Error: Record not found");
}

#[test]
fn return_flow_after_authentication() {
    let (s, a) = return_after_authentication("uid-1".to_string(), "978".to_string());
    assert!(matches!(&a, Action::Run(Query::UserByUid(u)) if u == "uid-1"));
    let (s, a) = return_step(s, Event::User(user(8, 1)));
    assert!(matches!(&a, Action::Run(Query::BookByIsbn(i)) if i == "978"));
    let (s, a) = return_step(s, Event::Book(book(4, "978", Some(0))));
    assert!(matches!(a, Action::Run(Query::DeleteUserbooks { book_id: 4, user_id: 8 })));
    let (s, a) = return_step(s, Event::Rows(1));
    assert!(matches!(&a, Action::Run(Query::BookByIsbn(i)) if i == "978"));
    let (s, a) = return_step(s, Event::Book(book(4, "978", Some(0))));
    assert!(matches!(&a, Action::Run(Query::SetStock { stock: Some(1), .. })));
    let (_, a) = return_step(s, Event::Rows(1));
    assert_eq!(text_of(&a), "Succesfully returned book.");
}

#[test]
fn return_delete_failure_gives_bare_message() {
    let (s, _) = return_after_authentication("uid-1".to_string(), "978".to_string());
    let (s, _) = return_step(s, Event::User(user(8, 1)));
    let (s, _) = return_step(s, Event::Book(book(4, "978", Some(0))));
    let (_, a) = return_step(s, Event::Failed("locked".to_string()));
    assert_eq!(text_of(&a), "locked");
}

#[test]
fn userbooks_flow() {
    let (s, a) = userbooks_start("tok".to_string());
    assert!(matches!(&a, Action::Fetch(u) if u == "https://courselend.akerhielm.nu/auth/verify/tok"));
    let (s, a) = userbooks_step(s, Event::Page(Some("{\"response\":\"Invalid token\"}".to_string())));
    assert!(matches!(&a, Action::Run(Query::UserByUid(u)) if u == "tok"));
    let (s, a) = userbooks_step(s, Event::User(user(8, 1)));
    assert!(matches!(a, Action::Run(Query::UserbooksOfUser(8))));
    let loan = Userbook {
        borrow_id: 1,
        book_id: 4,
        borrow_date: day(2023, 9, 1),
        return_date: day(2023, 11, 30),
        user_id: 8,
    };
    let (s, a) = userbooks_step(s, Event::Userbooks(vec![loan]));
    assert!(matches!(a, Action::Run(Query::BookById(4))));
    let (_, a) = userbooks_step(s, Event::Book(book(4, "978", None)));
    match a {
        Action::Respond(Reply::Userbooks(shown)) => {
            assert_eq!(shown.len(), 1);
            assert_eq!(shown[0].title, "Title 4");
            assert_eq!(shown[0].isbn13, Some("978".to_string()));
            assert_eq!(shown[0].return_date, day(2023, 11, 30));
        },
        _ => panic!("expected loans"),
    }
}

#[test]
fn userbooks_unverified_token_gets_nothing() {
    let (s, _) = userbooks_start("tok".to_string());
    let (_, a) = userbooks_step(s, Event::Page(Some("{\"response\":\"ok\"}".to_string())));
    assert!(matches!(a, Action::Respond(Reply::Nothing)));
}

#[test]
fn userbooks_failure_gives_bare_message() {
    let (s, _) = userbooks_start("tok".to_string());
    let (s, _) = userbooks_step(s, Event::Page(Some("{\"response\":\"Invalid token\"}".to_string())));
    let (_, a) = userbooks_step(s, Event::Failed("Record not found".to_string()));
    assert_eq!(text_of(&a), "Record not found");
}

#[test]
fn sell_flow() {
    let (s, a) = sell_start("978".to_string(), "tok");
    assert!(matches!(&a, Action::Fetch(u) if u == "https://courselend.akerhielm.nu/auth/verify/tok"));
    let (s, a) = sell_step(s, Event::Page(Some("{\"response\":\"Invalid token\"}".to_string())));
    assert!(matches!(&a, Action::Run(Query::BookByIsbn(i)) if i == "978"));
    let (s, a) = sell_step(s, Event::Book(book(4, "978", Some(9))));
    assert!(matches!(&a, Action::Run(Query::SetStock { stock: Some(10), .. })));
    assert!(is_run(&a));
    let (_, a) = sell_step(s, Event::Rows(1));
    assert_eq!(text_of(&a), "Succesfully increased stock.");
}

#[test]
fn sell_unverified_and_malformed() {
    let (s, _) = sell_start("978".to_string(), "tok");
    let (_, a) = sell_step(s, Event::Page(None));
    assert!(matches!(a, Action::Respond(Reply::Nothing)));
    let (s, _) = sell_start("978".to_string(), "tok");
    let (_, a) = sell_step(s, Event::Page(Some("???".to_string())));
    assert!(matches!(a, Action::Abort(Fault::MalformedReply)));
}

#[test]
fn increase_then_decrease_restores_stock() {
    for stock in [Some(0), Some(5), Some(-3), None] {
        let raised = adjust_stock(stock, StockChange::Increase(1)).unwrap();
        assert_eq!(adjust_stock(raised, StockChange::Decrease), Some(stock));
        let lowered = adjust_stock(stock, StockChange::Decrease).unwrap();
        assert_eq!(adjust_stock(lowered, StockChange::Increase(1)), Some(stock));
    }
}

#[test]
fn sale_acts_as_increase_by_one() {
    let (sale, first) = sell_start("978".to_string(), "tok");
    let (sale, sale_action) = sell_step(sale, Event::Page(Some("{\"response\":\"Invalid token\"}".to_string())));
    let (change, change_action) = stock_start("978".to_string(), StockChange::Increase(1));
    assert!(matches!(first, Action::Fetch(_)));
    assert!(matches!((&sale_action, &change_action),
        (Action::Run(Query::BookByIsbn(a)), Action::Run(Query::BookByIsbn(b))) if a == b));
    let (sale, sale_action) = sell_step(sale, Event::Book(book(4, "978", Some(2))));
    let (change, change_action) = stock_step(change, Event::Book(book(4, "978", Some(2))));
    assert!(matches!((&sale_action, &change_action),
        (Action::Run(Query::SetStock { stock: a, .. }), Action::Run(Query::SetStock { stock: b, .. })) if a == b));
    let (_, sale_action) = sell_step(sale, Event::Failed("gone".to_string()));
    let (_, change_action) = stock_step(change, Event::Failed("gone".to_string()));
    assert_eq!(text_of(&sale_action), text_of(&change_action));
}
