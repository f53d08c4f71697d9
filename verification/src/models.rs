use vstd::prelude::*;

verus! {

/// A calendar day (proleptic Gregorian), held as plain numbers.
#[derive(Clone, Copy, Debug, PartialEq, Eq, Structural)]
pub struct Date {
    pub year: i32,
    pub month: u32,
    pub day: u32,
}

/// A row of `book_tags`: a tag attached to a book.
#[derive(Debug)]
pub struct BookTag {
    pub book_id: i32,
    pub tag_id: i32,
}

/// A row of `books`.
#[derive(Debug)]
pub struct Book {
    pub bid: i32,
    pub isbn13: Option<String>,
    pub title: String,
    pub authors: String,
    pub edition: Option<String>,
    pub stock: Option<i32>,
    pub description: Option<String>,
}

/// A row of `coursebooks`: a book used in a course.
#[derive(Debug)]
pub struct Coursebook {
    pub coursebook_book_id: i32,
    pub coursebook_course_id: i32,
}

/// A row of `courses`.
#[derive(Debug)]
pub struct Course {
    pub cid: i32,
    pub course_name: String,
    pub period_start: i32,
    pub period_end: i32,
    pub term_start: i32,
    pub term_end: i32,
}

/// A row of `tags`.
#[derive(Debug)]
pub struct Tag {
    pub tid: i32,
    pub tag: String,
}

/// A row of `userbooks`: one loan of a book to a user.
#[derive(Debug)]
pub struct Userbook {
    pub borrow_id: i32,
    pub book_id: i32,
    pub borrow_date: Date,
    pub return_date: Date,
    pub user_id: i32,
}

/// A row of `users`.
#[derive(Debug)]
pub struct User {
    pub user_id: i32,
    pub subscription_status: bool,
    pub term: i32,
    pub year: i32,
    pub uid: String,
}

/// What a user is shown of one of their loans.
#[derive(Debug)]
pub struct FrontEndUserbook {
    pub title: String,
    pub isbn13: Option<String>,
    pub authors: String,
    pub borrow_date: Date,
    pub return_date: Date,
}

} // verus!
