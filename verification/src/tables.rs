//! An older shape of the stored records, with a coursebook keyed by
//! `book_id`/`course_id`, courses that carry a title and an instructor, and
//! users that carry their token id.

use vstd::prelude::*;
use crate::models::Date;

verus! {

/// A book used in a course.
#[derive(Debug)]
pub struct Coursebook {
    pub book_id: i32,
    pub course_id: i32,
}

/// A book of the catalogue.
#[derive(Debug)]
pub struct Book {
    pub bid: i32,
    pub isbn13: Option<String>,
    pub title: String,
    pub authors: String,
    pub edition: Option<String>,
    pub stock: Option<i32>,
    pub description: Option<String>,
}

/// A course with its periods and terms.
#[derive(Debug)]
pub struct Course {
    pub cid: i32,
    pub title: String,
    pub instructor: String,
    pub period_start: i32,
    pub period_end: i32,
    pub term_start: i32,
    pub term_end: i32,
}

/// One loan of a book to a user.
#[derive(Debug)]
pub struct Userbook {
    pub borrow_id: i32,
    pub book_id: i32,
    pub borrow_date: Date,
    pub return_date: Date,
    pub user_id: i32,
}

/// A user of the service.
#[derive(Debug)]
pub struct User {
    pub user_id: i32,
    pub subscription_status: bool,
    pub term: i32,
    pub year: i32,
    pub user_token_id: String,
}

} // verus!
