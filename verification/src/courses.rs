//! Courses around a book, and the books of the courses that start in the
//! next study period.

use vstd::prelude::*;
use crate::auth::{whoami_decision_of, whoami_outcome, whoami_url, whoami_address, page_view, AuthOutcome};
use crate::calendar::{date_within, study_period, study_period_of, ymd};
use crate::models::{Book, Course, Coursebook, Date, User};
use crate::protocol::{rank_below, responds_text, Action, Event, Fault, Query, Reply};
use crate::stock::fits_i32;
use crate::text::{comma_space, course_list, error_line, error_text, joined, string_views};

verus! {

/// Where a listing of the courses that use a book stands.
pub enum RelatedCoursesState {
    /// Waiting for the coursebook rows of the book.
    AwaitCoursebooks,
    /// Waiting for the course of `coursebooks[next]`; `names` holds the
    /// names of the courses found so far.
    AwaitCourse { coursebooks: Vec<Coursebook>, next: usize, names: Vec<String> },
    /// Finished.
    Done,
}

/// The state is one that the listing can be in.
pub open spec fn related_courses_wf(state: RelatedCoursesState) -> bool {
    state matches RelatedCoursesState::AwaitCourse { coursebooks, next, .. } ==> next < coursebooks.len()
}

/// How far a listing still has to go.
pub open spec fn related_courses_rank(state: RelatedCoursesState) -> (nat, nat) {
    match state {
        RelatedCoursesState::AwaitCoursebooks => (2, 0),
        RelatedCoursesState::AwaitCourse { coursebooks, next, .. } => (1, (coursebooks.len() - next) as nat),
        RelatedCoursesState::Done => (0, 0),
    }
}

/// Going on with `coursebooks` from index `next` with the names found so
/// far: ask for the course of the next coursebook, or, when none is left,
/// answer with the names joined by a comma and a space.
pub open spec fn related_courses_advance(
    coursebooks: Seq<Coursebook>,
    next_index: int,
    names: Seq<Seq<char>>,
    next: RelatedCoursesState,
    action: Action,
) -> bool {
    if next_index < coursebooks.len() {
        &&& next matches RelatedCoursesState::AwaitCourse { coursebooks: c, next: n, names: m }
            && c@ == coursebooks && n == next_index && string_views(m@) == names
        &&& action == Action::Run(Query::CourseById(coursebooks[next_index].coursebook_course_id))
    } else {
        &&& next is Done
        &&& responds_text(action, joined(names, comma_space()))
    }
}

/// Starts listing the courses that use the book `bid`: loads its coursebook
/// rows.
pub fn related_courses_start(bid: i32) -> (res: (RelatedCoursesState, Action))
    ensures
        res.0 is AwaitCoursebooks,
        res.1 == Action::Run(Query::CoursebooksOfBook(bid)),
{
    (RelatedCoursesState::AwaitCoursebooks, Action::Run(Query::CoursebooksOfBook(bid)))
}

/// One step of the listing. The coursebook rows start the walk through
/// them; a found course adds its name, a course that is not found is
/// skipped; at the end the names are the reply. A failed load of the rows
/// ends with the error line; any other answer stops the listing.
pub open spec fn related_courses_transition(
    state: RelatedCoursesState,
    event: Event,
    next: RelatedCoursesState,
    action: Action,
) -> bool {
    match state {
        RelatedCoursesState::AwaitCoursebooks => match event {
            Event::Coursebooks(rows) => related_courses_advance(rows@, 0, Seq::empty(), next, action),
            Event::Failed(message) => next is Done && responds_text(action, error_line(message@)),
            _ => next is Done && action == Action::Abort(Fault::UnexpectedEvent),
        },
        RelatedCoursesState::AwaitCourse { coursebooks, next: i, names } => match event {
            Event::Course(course) => related_courses_advance(
                coursebooks@, i + 1, string_views(names@).push(course.course_name@), next, action),
            Event::Failed(_) => related_courses_advance(coursebooks@, i + 1, string_views(names@), next, action),
            _ => next is Done && action == Action::Abort(Fault::UnexpectedEvent),
        },
        RelatedCoursesState::Done => next is Done && action == Action::Abort(Fault::UnexpectedEvent),
    }
}

fn related_courses_continue(coursebooks: Vec<Coursebook>, next: usize, names: Vec<String>) -> (res: (RelatedCoursesState, Action))
    requires
        next <= coursebooks.len(),
    ensures
        related_courses_advance(coursebooks@, next as int, string_views(names@), res.0, res.1),
        related_courses_wf(res.0),
        res.0 is Done || related_courses_rank(res.0) == (1nat, (coursebooks.len() - next) as nat),
{
    if next < coursebooks.len() {
        let id = coursebooks[next].coursebook_course_id;
        (RelatedCoursesState::AwaitCourse { coursebooks, next, names }, Action::Run(Query::CourseById(id)))
    } else {
        (RelatedCoursesState::Done, Action::Respond(Reply::Text(course_list(&names))))
    }
}

/// Takes one step of a listing of the courses that use a book.
pub fn related_courses_step(state: RelatedCoursesState, event: Event) -> (res: (RelatedCoursesState, Action))
    requires
        related_courses_wf(state),
    ensures
        related_courses_transition(state, event, res.0, res.1),
        related_courses_wf(res.0),
        res.1 is Run ==> rank_below(related_courses_rank(res.0), related_courses_rank(state)),
        !(res.1 is Run) ==> res.0 is Done && res.1 !is Fetch,
{
    match state {
        RelatedCoursesState::AwaitCoursebooks => match event {
            Event::Coursebooks(rows) => {
                let names: Vec<String> = Vec::new();
                proof {
                    assert(string_views(names@) =~= Seq::<Seq<char>>::empty());
                }
                related_courses_continue(rows, 0, names)
            },
            Event::Failed(message) => (
                RelatedCoursesState::Done,
                Action::Respond(Reply::Text(error_text(message.as_str()))),
            ),
            _ => (RelatedCoursesState::Done, Action::Abort(Fault::UnexpectedEvent)),
        },
        RelatedCoursesState::AwaitCourse { coursebooks, next, names } => match event {
            Event::Course(course) => {
                let mut names = names;
                proof {
                    assert(string_views(names@.push(course.course_name)) =~= string_views(names@).push(course.course_name@));
                }
                names.push(course.course_name);
                related_courses_continue(coursebooks, next + 1, names)
            },
            Event::Failed(_) => related_courses_continue(coursebooks, next + 1, names),
            _ => (RelatedCoursesState::Done, Action::Abort(Fault::UnexpectedEvent)),
        },
        RelatedCoursesState::Done => (RelatedCoursesState::Done, Action::Abort(Fault::UnexpectedEvent)),
    }
}

/// The period and term of the courses that start next, after study period
/// `period` of term `term`: after period 2 comes period 3 of the next term,
/// after period 4 comes period 1 of the next term, and otherwise the next
/// period of the same term.
pub open spec fn next_period_of(period: i32, term: i32) -> (int, int) {
    if period == 2 {
        (3, term + 1)
    } else if period == 4 {
        (1, term + 1)
    } else {
        (period + 1, term as int)
    }
}

/// The period and term of the courses that start next, or `None` when one
/// of them does not fit in an `i32`.
pub fn next_period_query(period: i32, term: i32) -> (res: Option<(i32, i32)>)
    ensures
        res is None <==> !fits_i32(next_period_of(period, term).0) || !fits_i32(next_period_of(period, term).1),
        res matches Some(q) ==> q.0 as int == next_period_of(period, term).0 && q.1 as int == next_period_of(period, term).1,
{
    if period == 2 {
        match term.checked_add(1) {
            Some(t) => Some((3, t)),
            None => None,
        }
    } else if period == 4 {
        match term.checked_add(1) {
            Some(t) => Some((1, t)),
            None => None,
        }
    } else {
        match period.checked_add(1) {
            Some(p) => Some((p, term)),
            None => None,
        }
    }
}

/// Where a listing of the books for the next study period stands.
pub enum NextPeriodState {
    /// Waiting for the reply of the authentication service.
    AwaitWhoami,
    /// Waiting for the user; `today` is the day of the request.
    AwaitUser { today: Date },
    /// Waiting for the courses that start next.
    AwaitCourses,
    /// Waiting for the coursebook row of `courses[next]`; `books` holds the
    /// books found so far.
    AwaitCoursebook { courses: Vec<Course>, next: usize, books: Vec<Book> },
    /// Waiting for the book of the coursebook row of `courses[next]`.
    AwaitBook { courses: Vec<Course>, next: usize, books: Vec<Book> },
    /// Finished.
    Done,
}

/// The state is one that the listing can be in.
pub open spec fn next_period_wf(state: NextPeriodState) -> bool {
    match state {
        NextPeriodState::AwaitCoursebook { courses, next, .. } => next < courses.len(),
        NextPeriodState::AwaitBook { courses, next, .. } => next < courses.len(),
        _ => true,
    }
}

/// How far a listing still has to go.
pub open spec fn next_period_rank(state: NextPeriodState) -> (nat, nat) {
    match state {
        NextPeriodState::AwaitWhoami => (4, 0),
        NextPeriodState::AwaitUser { .. } => (3, 0),
        NextPeriodState::AwaitCourses => (2, 0),
        NextPeriodState::AwaitCoursebook { courses, next, .. } => (1, (2 * (courses.len() - next)) as nat),
        NextPeriodState::AwaitBook { courses, next, .. } => (1, (2 * (courses.len() - next) - 1) as nat),
        NextPeriodState::Done => (0, 0),
    }
}

/// Going on with `courses` from index `next_index` with the books found so
/// far: ask for the coursebook row of the next course, or, when none is
/// left, answer with the books.
pub open spec fn next_period_advance(
    courses: Seq<Course>,
    next_index: int,
    books: Seq<Book>,
    next: NextPeriodState,
    action: Action,
) -> bool {
    if next_index < courses.len() {
        &&& next matches NextPeriodState::AwaitCoursebook { courses: c, next: n, books: b }
            && c@ == courses && n == next_index && b@ == books
        &&& action == Action::Run(Query::CoursebookOfCourse(courses[next_index].cid))
    } else {
        &&& next is Done
        &&& action matches Action::Respond(Reply::Books(b)) && b@ == books
    }
}

/// Starts listing the books for the next period of the user with `token`:
/// asks the authentication service who the token belongs to.
pub fn next_period_start(token: &str) -> (res: (NextPeriodState, Action))
    ensures
        res.0 is AwaitWhoami,
        res.1 matches Action::Fetch(url) && url@ == whoami_address(token@),
{
    (NextPeriodState::AwaitWhoami, Action::Fetch(whoami_url(token)))
}

/// Goes on with a listing whose caller is authenticated: looks up the user
/// whose uid is `token`.
pub fn next_period_after_authentication(token: String, today: Date) -> (res: (NextPeriodState, Action))
    ensures
        res.0 == (NextPeriodState::AwaitUser { today }),
        res.1 == Action::Run(Query::UserByUid(token)),
{
    (NextPeriodState::AwaitUser { today }, Action::Run(Query::UserByUid(token)))
}

/// One step of the listing.
///
/// The authentication reply never lets the caller through: it is answered
/// "Could not authenticate" or stops the listing. With the user found, the
/// day must fall in a study period ("Date outside of known periods"
/// otherwise), and the courses of the period that follows are loaded. For
/// each course its first coursebook row is looked up (a course without one
/// is skipped) and then the row's book, which must exist; the books found
/// are the reply. Failed lookups of the user or the courses end with the
/// error line; any other answer stops the listing.
pub open spec fn next_period_transition(state: NextPeriodState, event: Event, next: NextPeriodState, action: Action) -> bool {
    match state {
        NextPeriodState::AwaitWhoami => match event {
            Event::Page(page) => next is Done && match whoami_decision_of(page_view(&page)) {
                AuthOutcome::Rejected => responds_text(action, "Could not authenticate"@),
                AuthOutcome::Broken(fault) => action == Action::Abort(fault),
            },
            _ => next is Done && action == Action::Abort(Fault::UnexpectedEvent),
        },
        NextPeriodState::AwaitUser { today } => match event {
            Event::User(user) => match study_period_of(today) {
                None => next is Done && responds_text(action, "Date outside of known periods"@),
                Some(period) => {
                    let q = next_period_of(period, user.term);
                    if fits_i32(q.0) && fits_i32(q.1) {
                        &&& next is AwaitCourses
                        &&& action matches Action::Run(Query::CoursesStarting { period: p, term: t })
                            && p == q.0 && t == q.1
                    } else {
                        next is Done && action == Action::Abort(Fault::TermOverflow)
                    }
                },
            },
            Event::Failed(message) => next is Done && responds_text(action, error_line(message@)),
            _ => next is Done && action == Action::Abort(Fault::UnexpectedEvent),
        },
        NextPeriodState::AwaitCourses => match event {
            Event::Courses(courses) => next_period_advance(courses@, 0, Seq::empty(), next, action),
            Event::Failed(message) => next is Done && responds_text(action, error_line(message@)),
            _ => next is Done && action == Action::Abort(Fault::UnexpectedEvent),
        },
        NextPeriodState::AwaitCoursebook { courses, next: i, books } => match event {
            Event::Coursebook(row) => {
                &&& next matches NextPeriodState::AwaitBook { courses: c, next: n, books: b }
                    && c@ == courses@ && n == i && b@ == books@
                &&& action == Action::Run(Query::BookById(row.coursebook_book_id))
            },
            Event::Failed(_) => next_period_advance(courses@, i + 1, books@, next, action),
            _ => next is Done && action == Action::Abort(Fault::UnexpectedEvent),
        },
        NextPeriodState::AwaitBook { courses, next: i, books } => match event {
            Event::Book(book) => next_period_advance(courses@, i + 1, books@.push(book), next, action),
            Event::Failed(_) => next is Done && action == Action::Abort(Fault::MissingBook),
            _ => next is Done && action == Action::Abort(Fault::UnexpectedEvent),
        },
        NextPeriodState::Done => next is Done && action == Action::Abort(Fault::UnexpectedEvent),
    }
}

fn next_period_continue(courses: Vec<Course>, next: usize, books: Vec<Book>) -> (res: (NextPeriodState, Action))
    requires
        next <= courses.len(),
    ensures
        next_period_advance(courses@, next as int, books@, res.0, res.1),
        next_period_wf(res.0),
        res.0 is Done || next_period_rank(res.0) == (1nat, (2 * (courses.len() - next)) as nat),
{
    if next < courses.len() {
        let cid = courses[next].cid;
        (NextPeriodState::AwaitCoursebook { courses, next, books }, Action::Run(Query::CoursebookOfCourse(cid)))
    } else {
        (NextPeriodState::Done, Action::Respond(Reply::Books(books)))
    }
}

/// Takes one step of a listing of the books for the next period.
pub fn next_period_step(state: NextPeriodState, event: Event) -> (res: (NextPeriodState, Action))
    requires
        next_period_wf(state),
    ensures
        next_period_transition(state, event, res.0, res.1),
        next_period_wf(res.0),
        res.1 is Run ==> rank_below(next_period_rank(res.0), next_period_rank(state)),
        !(res.1 is Run) ==> res.0 is Done && res.1 !is Fetch,
{
    match state {
        NextPeriodState::AwaitWhoami => match event {
            Event::Page(page) => match whoami_outcome(&page) {
                AuthOutcome::Rejected => (
                    NextPeriodState::Done,
                    Action::Respond(Reply::Text(String::from_str("Could not authenticate"))),
                ),
                AuthOutcome::Broken(fault) => (NextPeriodState::Done, Action::Abort(fault)),
            },
            _ => (NextPeriodState::Done, Action::Abort(Fault::UnexpectedEvent)),
        },
        NextPeriodState::AwaitUser { today } => match event {
            Event::User(user) => match study_period(today) {
                None => (
                    NextPeriodState::Done,
                    Action::Respond(Reply::Text(String::from_str("Date outside of known periods"))),
                ),
                Some(period) => match next_period_query(period, user.term) {
                    Some((p, t)) => (
                        NextPeriodState::AwaitCourses,
                        Action::Run(Query::CoursesStarting { period: p, term: t }),
                    ),
                    None => (NextPeriodState::Done, Action::Abort(Fault::TermOverflow)),
                },
            },
            Event::Failed(message) => (
                NextPeriodState::Done,
                Action::Respond(Reply::Text(error_text(message.as_str()))),
            ),
            _ => (NextPeriodState::Done, Action::Abort(Fault::UnexpectedEvent)),
        },
        NextPeriodState::AwaitCourses => match event {
            Event::Courses(courses) => next_period_continue(courses, 0, Vec::new()),
            Event::Failed(message) => (
                NextPeriodState::Done,
                Action::Respond(Reply::Text(error_text(message.as_str()))),
            ),
            _ => (NextPeriodState::Done, Action::Abort(Fault::UnexpectedEvent)),
        },
        NextPeriodState::AwaitCoursebook { courses, next, books } => match event {
            Event::Coursebook(row) => (
                NextPeriodState::AwaitBook { courses, next, books },
                Action::Run(Query::BookById(row.coursebook_book_id)),
            ),
            Event::Failed(_) => next_period_continue(courses, next + 1, books),
            _ => (NextPeriodState::Done, Action::Abort(Fault::UnexpectedEvent)),
        },
        NextPeriodState::AwaitBook { courses, next, books } => match event {
            Event::Book(book) => {
                let mut books = books;
                books.push(book);
                next_period_continue(courses, next + 1, books)
            },
            Event::Failed(_) => (NextPeriodState::Done, Action::Abort(Fault::MissingBook)),
            _ => (NextPeriodState::Done, Action::Abort(Fault::UnexpectedEvent)),
        },
        NextPeriodState::Done => (NextPeriodState::Done, Action::Abort(Fault::UnexpectedEvent)),
    }
}

/// The courses that start after a study period are those of the period
/// that follows it in the academic year: 1 is followed by 2 and 3 by 4 in
/// the same term, 2 by 3 and 4 by 1 in the next term.
pub proof fn lemma_next_period_follows(period: i32, term: i32)
    requires
        1 <= period <= 4,
    ensures
        next_period_of(period, term).0 == (if period == 4 { 1 } else { period + 1 }),
        next_period_of(period, term).1 == (if period == 2 || period == 4 { term + 1 } else { term as int }),
        1 <= next_period_of(period, term).0 <= 4,
{
}

/// From `state`, the listing of the courses that use a book answers the
/// events `events` with the actions `actions`, one action per event.
pub open spec fn related_courses_runs(state: RelatedCoursesState, events: Seq<Event>, actions: Seq<Action>) -> bool
    decreases events.len(),
{
    &&& events.len() == actions.len()
    &&& events.len() > 0 ==> exists|next: RelatedCoursesState|
        #[trigger] related_courses_transition(state, events[0], next, actions[0])
            && related_courses_runs(next, events.drop_first(), actions.drop_first())
}

/// The answers that find each of `courses`, one after another.
pub open spec fn courses_found(courses: Seq<Course>) -> Seq<Event> {
    courses.map_values(|c: Course| Event::Course(c))
}

/// The names of `courses`, in order.
pub open spec fn course_names(courses: Seq<Course>) -> Seq<Seq<char>> {
    courses.map_values(|c: Course| c.course_name@)
}

/// A course that is not found is skipped: the listing asks for the course
/// of the next coursebook row, or, after the last row, answers with the
/// names found so far; no name is added.
pub proof fn lemma_related_courses_skip_missing(
    coursebooks: Vec<Coursebook>,
    i: usize,
    names: Vec<String>,
    message: String,
    next: RelatedCoursesState,
    action: Action,
)
    requires
        related_courses_transition(RelatedCoursesState::AwaitCourse { coursebooks, next: i, names }, Event::Failed(message), next, action),
    ensures
        if i + 1 < coursebooks@.len() {
            &&& next matches RelatedCoursesState::AwaitCourse { coursebooks: c, next: n, names: m }
                && c@ == coursebooks@ && n == i + 1 && string_views(m@) == string_views(names@)
            &&& action == Action::Run(Query::CourseById(coursebooks@[i + 1].coursebook_course_id))
        } else {
            next is Done && responds_text(action, joined(string_views(names@), seq![',', ' ']))
        },
{
}

/// When every course of the remaining coursebook rows is found, the listing
/// asks for the course of each row in turn and answers with the names found
/// before followed by the names of all these courses, in row order, joined
/// by a comma and a space.
pub proof fn lemma_related_courses_name_every_course(
    state: RelatedCoursesState,
    coursebooks: Seq<Coursebook>,
    i: int,
    names: Seq<Seq<char>>,
    found: Seq<Course>,
    actions: Seq<Action>,
)
    requires
        state matches RelatedCoursesState::AwaitCourse { coursebooks: c, next: n, names: m } && c@ == coursebooks
            && n == i && string_views(m@) == names,
        0 <= i < coursebooks.len(),
        found.len() == coursebooks.len() - i,
        related_courses_runs(state, courses_found(found), actions),
    ensures
        actions.len() == found.len(),
        responds_text(actions.last(), joined(names + course_names(found), seq![',', ' '])),
        forall|k: int| 0 <= k < found.len() - 1 ==> #[trigger] actions[k]
            == Action::Run(Query::CourseById(coursebooks[i + k + 1].coursebook_course_id)),
    decreases found.len(),
{
    let events = courses_found(found);
    let next = choose|next: RelatedCoursesState|
        #[trigger] related_courses_transition(state, events[0], next, actions[0])
            && related_courses_runs(next, events.drop_first(), actions.drop_first());
    let names1 = names.push(found[0].course_name@);
    assert(names + course_names(found) =~= names1 + course_names(found.drop_first()));
    if i + 1 < coursebooks.len() {
        assert(courses_found(found).drop_first() =~= courses_found(found.drop_first()));
        lemma_related_courses_name_every_course(next, coursebooks, i + 1, names1, found.drop_first(), actions.drop_first());
        assert forall|k: int| 0 <= k < found.len() - 1 implies #[trigger] actions[k]
            == Action::Run(Query::CourseById(coursebooks[i + k + 1].coursebook_course_id)) by {
            if k > 0 {
                assert(actions[k] == actions.drop_first()[k - 1]);
            }
        }
    } else {
        assert(found.drop_first() =~= Seq::<Course>::empty());
        assert(course_names(found.drop_first()) =~= Seq::<Seq<char>>::empty());
        assert(names1 + course_names(found.drop_first()) =~= names1);
    }
}

/// From `state`, the listing of the books for the next period answers the
/// events `events` with the actions `actions`, one action per event.
pub open spec fn next_period_runs(state: NextPeriodState, events: Seq<Event>, actions: Seq<Action>) -> bool
    decreases events.len(),
{
    &&& events.len() == actions.len()
    &&& events.len() > 0 ==> exists|next: NextPeriodState|
        #[trigger] next_period_transition(state, events[0], next, actions[0])
            && next_period_runs(next, events.drop_first(), actions.drop_first())
}

/// The answers that find, course after course, the coursebook row `rows[k]`
/// and then its book `found[k]`.
pub open spec fn coursebooks_and_books_found(rows: Seq<Coursebook>, found: Seq<Book>) -> Seq<Event>
    decreases rows.len(),
{
    if rows.len() == 0 || found.len() == 0 {
        Seq::empty()
    } else {
        seq![Event::Coursebook(rows[0]), Event::Book(found[0])]
            + coursebooks_and_books_found(rows.drop_first(), found.drop_first())
    }
}

/// The user's study period decides the courses that are loaded: those of
/// period 2 of the same term in period 1, of period 3 of the next term in
/// period 2, of period 4 of the same term in period 3 and of period 1 of the
/// next term in period 4; a day outside the periods is answered "Date
/// outside of known periods".
pub proof fn lemma_next_period_courses_loaded(today: Date, user: User, next: NextPeriodState, action: Action)
    requires
        next_period_transition(NextPeriodState::AwaitUser { today }, Event::User(user), next, action),
    ensures
        date_within(today, ymd(2023, 8, 28), ymd(2023, 11, 5))
            ==> action == Action::Run(Query::CoursesStarting { period: 2, term: user.term }),
        date_within(today, ymd(2023, 11, 6), ymd(2024, 1, 14)) && user.term < i32::MAX
            ==> action == Action::Run(Query::CoursesStarting { period: 3, term: (user.term + 1) as i32 }),
        date_within(today, ymd(2024, 1, 15), ymd(2024, 3, 24))
            ==> action == Action::Run(Query::CoursesStarting { period: 4, term: user.term }),
        date_within(today, ymd(2023, 3, 27), ymd(2023, 6, 4)) && user.term < i32::MAX
            ==> action == Action::Run(Query::CoursesStarting { period: 1, term: (user.term + 1) as i32 }),
        !date_within(today, ymd(2023, 8, 28), ymd(2023, 11, 5)) && !date_within(today, ymd(2023, 11, 6), ymd(2024, 1, 14))
            && !date_within(today, ymd(2024, 1, 15), ymd(2024, 3, 24)) && !date_within(today, ymd(2023, 3, 27), ymd(2023, 6, 4))
            ==> next is Done && responds_text(action, "Date outside of known periods"@),
{
}

/// A course without a coursebook row is skipped: the listing goes on with
/// the coursebook row of the next course, or, after the last course, answers
/// with the books found so far.
pub proof fn lemma_next_period_skip_course(
    courses: Vec<Course>,
    i: usize,
    books: Vec<Book>,
    message: String,
    next: NextPeriodState,
    action: Action,
)
    requires
        i < courses@.len(),
        next_period_transition(NextPeriodState::AwaitCoursebook { courses, next: i, books }, Event::Failed(message), next, action),
    ensures
        if i + 1 < courses@.len() {
            &&& next matches NextPeriodState::AwaitCoursebook { courses: c, next: n, books: b }
                && c@ == courses@ && n == i + 1 && b@ == books@
            &&& action == Action::Run(Query::CoursebookOfCourse(courses@[i + 1].cid))
        } else {
            &&& next is Done
            &&& action matches Action::Respond(Reply::Books(b)) && b@ == books@
        },
{
}

/// After the book of course `i` is found the listing keeps it and goes on
/// with the coursebook row of course `i + 1`, or, after the last course,
/// answers with the books found, this one last.
pub proof fn lemma_next_period_after_book(
    courses: Vec<Course>,
    i: usize,
    books: Vec<Book>,
    book: Book,
    next: NextPeriodState,
    action: Action,
)
    requires
        i < courses@.len(),
        next_period_transition(NextPeriodState::AwaitBook { courses, next: i, books }, Event::Book(book), next, action),
    ensures
        if i + 1 < courses@.len() {
            &&& next matches NextPeriodState::AwaitCoursebook { courses: c, next: n, books: b }
                && c@ == courses@ && n == i + 1 && b@ == books@.push(book)
            &&& action == Action::Run(Query::CoursebookOfCourse(courses@[i + 1].cid))
        } else {
            &&& next is Done
            &&& action matches Action::Respond(Reply::Books(b)) && b@ == books@.push(book)
        },
{
}

/// When every remaining course has a coursebook row and its book is found,
/// the listing looks up, course by course, the row and then its book, and
/// answers with the books found before followed by one book per course, in
/// course order.
pub proof fn lemma_next_period_lists_every_book(
    state: NextPeriodState,
    courses: Seq<Course>,
    i: int,
    books: Seq<Book>,
    rows: Seq<Coursebook>,
    found: Seq<Book>,
    actions: Seq<Action>,
)
    requires
        state matches NextPeriodState::AwaitCoursebook { courses: c, next: n, books: b } && c@ == courses && n == i
            && b@ == books,
        0 <= i < courses.len(),
        rows.len() == courses.len() - i,
        found.len() == rows.len(),
        next_period_runs(state, coursebooks_and_books_found(rows, found), actions),
    ensures
        actions.len() == 2 * rows.len(),
        actions.last() matches Action::Respond(Reply::Books(r)) && r@ == books + found,
        forall|k: int| 0 <= k < rows.len() ==> #[trigger] actions[2 * k]
            == Action::Run(Query::BookById(rows[k].coursebook_book_id)),
        forall|k: int| 0 <= k < rows.len() - 1 ==> #[trigger] actions[2 * k + 1]
            == Action::Run(Query::CoursebookOfCourse(courses[i + k + 1].cid)),
    decreases rows.len(),
{
    let events = coursebooks_and_books_found(rows, found);
    let rest = coursebooks_and_books_found(rows.drop_first(), found.drop_first());
    assert(events =~= seq![Event::Coursebook(rows[0]), Event::Book(found[0])] + rest);
    assert(events[0] == Event::Coursebook(rows[0]));
    assert(events.drop_first()[0] == Event::Book(found[0]));
    assert(events.drop_first().drop_first() =~= rest);
    let s1 = choose|s1: NextPeriodState|
        #[trigger] next_period_transition(state, events[0], s1, actions[0])
            && next_period_runs(s1, events.drop_first(), actions.drop_first());
    let a1 = actions.drop_first();
    let s2 = choose|s2: NextPeriodState|
        #[trigger] next_period_transition(s1, events.drop_first()[0], s2, a1[0])
            && next_period_runs(s2, events.drop_first().drop_first(), a1.drop_first());
    let a2 = a1.drop_first();
    let books1 = books.push(found[0]);
    assert(books + found =~= books1 + found.drop_first());
    if i + 1 < courses.len() {
        lemma_next_period_lists_every_book(s2, courses, i + 1, books1, rows.drop_first(), found.drop_first(), a2);
        assert(actions.last() == a2.last());
        assert forall|k: int| 0 <= k < rows.len() implies #[trigger] actions[2 * k]
            == Action::Run(Query::BookById(rows[k].coursebook_book_id)) by {
            if k > 0 {
                assert(actions[2 * k] == a2[2 * (k - 1)]);
            }
        }
        assert forall|k: int| 0 <= k < rows.len() - 1 implies #[trigger] actions[2 * k + 1]
            == Action::Run(Query::CoursebookOfCourse(courses[i + k + 1].cid)) by {
            if k > 0 {
                assert(actions[2 * k + 1] == a2[2 * (k - 1) + 1]);
            }
        }
    } else {
        assert(found.drop_first() =~= Seq::<Book>::empty());
        assert(books1 + found.drop_first() =~= books1);
        assert(rest =~= Seq::<Event>::empty());
    }
}

/// The coursebook rows of the book start the walk with the course of the
/// first row; a book without rows gets an empty answer; a failed load
/// answers with "Error: " and the failure's text.
pub proof fn lemma_related_courses_first(event: Event, next: RelatedCoursesState, action: Action)
    requires
        related_courses_transition(RelatedCoursesState::AwaitCoursebooks, event, next, action),
    ensures
        match event {
            Event::Coursebooks(rows) => if rows@.len() == 0 {
                next is Done && responds_text(action, Seq::empty())
            } else {
                &&& action == Action::Run(Query::CourseById(rows@[0].coursebook_course_id))
                &&& next matches RelatedCoursesState::AwaitCourse { coursebooks: c, next: n, names: m }
                    && c@ == rows@ && n == 0 && m@.len() == 0
            },
            Event::Failed(m) => next is Done && responds_text(action, "Error: "@ + m@),
            _ => next is Done && action is Abort,
        },
{
    assert(joined(Seq::<Seq<char>>::empty(), comma_space()) =~= Seq::<char>::empty());
    match next {
        RelatedCoursesState::AwaitCourse { names: m, .. } => {
            assert(string_views(m@).len() == m@.len());
        },
        _ => {},
    }
}

/// The other steps of the listing for the next period: the authentication
/// reply answers "Could not authenticate" or stops; a failed user or course
/// lookup answers with "Error: " and the failure's text; the loaded courses
/// start the walk with the coursebook row of the first course (no courses
/// give an empty list of books); a coursebook row gives the lookup of its
/// book; a book that is not there stops the listing.
pub proof fn lemma_next_period_other_steps(state: NextPeriodState, event: Event, next: NextPeriodState, action: Action)
    requires
        next_period_transition(state, event, next, action),
    ensures
        match (state, event) {
            (NextPeriodState::AwaitWhoami, Event::Page(page)) => next is Done && match whoami_decision_of(page_view(&page)) {
                AuthOutcome::Rejected => responds_text(action, "Could not authenticate"@),
                AuthOutcome::Broken(f) => action == Action::Abort(f),
            },
            (NextPeriodState::AwaitUser { .. }, Event::Failed(m)) => next is Done && responds_text(action, "Error: "@ + m@),
            (NextPeriodState::AwaitCourses, Event::Failed(m)) => next is Done && responds_text(action, "Error: "@ + m@),
            (NextPeriodState::AwaitCourses, Event::Courses(cs)) => if cs@.len() == 0 {
                &&& next is Done
                &&& action matches Action::Respond(Reply::Books(b)) && b@.len() == 0
            } else {
                &&& action == Action::Run(Query::CoursebookOfCourse(cs@[0].cid))
                &&& next matches NextPeriodState::AwaitCoursebook { courses: c, next: n, books: b }
                    && c@ == cs@ && n == 0 && b@.len() == 0
            },
            (NextPeriodState::AwaitCoursebook { courses, next: i, books }, Event::Coursebook(row)) => {
                &&& action == Action::Run(Query::BookById(row.coursebook_book_id))
                &&& next matches NextPeriodState::AwaitBook { courses: c, next: n, books: b }
                    && c@ == courses@ && n == i && b@ == books@
            },
            (NextPeriodState::AwaitBook { .. }, Event::Failed(_)) => next is Done && action == Action::Abort(Fault::MissingBook),
            _ => true,
        },
{
}

} // verus!
