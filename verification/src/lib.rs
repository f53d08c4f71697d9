//! Verified core of a course-literature lending service: the records that the
//! service stores, the calendar rules that decide study periods and return
//! dates, the text it answers with, and the decision logic of each request
//! handler, written as a state machine that names every database query and web
//! call it needs and decides on every answer.

pub mod models;
pub mod tables;
pub mod calendar;
pub mod text;
pub mod json;
pub mod protocol;
pub mod auth;
pub mod stock;
pub mod catalog;
pub mod courses;
pub mod loans;
pub mod totp;
