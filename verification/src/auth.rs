//! The two checks of a token against the authentication service: who the
//! token belongs to (`whoami`) and whether it is valid (`verify`).

use vstd::prelude::*;
use crate::json::{json_field, json_field_of, JsonField, JsonFieldView};
use crate::protocol::Fault;

verus! {

/// Address that tells who a token belongs to.
pub open spec fn whoami_address(token: Seq<char>) -> Seq<char> {
    "https://courseLend.akerhielm.nu/auth/whoami/"@ + token
}

/// Address that tells whether a token is valid.
pub open spec fn verify_address(token: Seq<char>) -> Seq<char> {
    "https://courselend.akerhielm.nu/auth/verify/"@ + token
}

/// The address that tells who `token` belongs to.
pub fn whoami_url(token: &str) -> (url: String)
    ensures
        url@ == whoami_address(token@),
{
    String::from_str("https://courseLend.akerhielm.nu/auth/whoami/").concat(token)
}

/// The address that tells whether `token` is valid.
pub fn verify_url(token: &str) -> (url: String)
    ensures
        url@ == verify_address(token@),
{
    String::from_str("https://courselend.akerhielm.nu/auth/verify/").concat(token)
}

/// How a `whoami` reply ends the authentication.
#[derive(Debug, PartialEq, Eq, Structural)]
pub enum AuthOutcome {
    /// The caller is answered "Could not authenticate".
    Rejected,
    /// The handler stops without an answer.
    Broken(Fault),
}

/// The decision on the `sub` field of a `whoami` reply: a reply that is not
/// JSON stops the handler; a present, non-null subject rejects the caller;
/// a null or missing subject is read as a string, which it is not, and that
/// stops the handler too. No reply lets the caller through.
pub open spec fn subject_decision_of(field: JsonFieldView) -> AuthOutcome {
    match field {
        JsonFieldView::NotJson => AuthOutcome::Broken(Fault::MalformedReply),
        JsonFieldView::Null => AuthOutcome::Broken(Fault::MissingSubject),
        JsonFieldView::Text(_) => AuthOutcome::Rejected,
        JsonFieldView::Other => AuthOutcome::Rejected,
    }
}

/// The decision on a `whoami` reply: no reply rejects the caller, a body is
/// judged by its `sub` field.
pub open spec fn whoami_decision_of(page: Option<Seq<char>>) -> AuthOutcome {
    match page {
        None => AuthOutcome::Rejected,
        Some(body) => subject_decision_of(json_field_of(body, "sub"@)),
    }
}

/// The characters of an optional string.
pub open spec fn page_view(page: &Option<String>) -> Option<Seq<char>> {
    match page {
        Some(s) => Some(s@),
        None => None,
    }
}

/// Decides on the `sub` field of a `whoami` reply.
pub fn subject_decision(field: &JsonField) -> (outcome: AuthOutcome)
    ensures
        outcome == subject_decision_of(field@),
{
    match field {
        JsonField::NotJson => AuthOutcome::Broken(Fault::MalformedReply),
        JsonField::Null => AuthOutcome::Broken(Fault::MissingSubject),
        JsonField::Text(_) => AuthOutcome::Rejected,
        JsonField::Other => AuthOutcome::Rejected,
    }
}

/// Decides on a `whoami` reply, reading its `sub` field as JSON.
pub fn whoami_outcome(page: &Option<String>) -> (outcome: AuthOutcome)
    ensures
        outcome == whoami_decision_of(page_view(page)),
{
    match page {
        None => AuthOutcome::Rejected,
        Some(body) => {
            let field = json_field(body.as_str(), "sub");
            subject_decision(&field)
        },
    }
}

/// The verdict on the `response` field of a `verify` reply: a reply that is
/// not JSON stops the handler; the token counts as verified exactly when the
/// field is the string "Invalid token".
pub open spec fn token_verdict_of(field: JsonFieldView) -> Result<bool, Fault> {
    match field {
        JsonFieldView::NotJson => Err(Fault::MalformedReply),
        JsonFieldView::Text(s) => Ok(s == "Invalid token"@),
        _ => Ok(false),
    }
}

/// The verdict on a `verify` reply: no reply is no verification.
pub open spec fn verify_decision_of(page: Option<Seq<char>>) -> Result<bool, Fault> {
    match page {
        None => Ok(false),
        Some(body) => token_verdict_of(json_field_of(body, "response"@)),
    }
}

/// Judges the `response` field of a `verify` reply.
pub fn token_verdict(field: &JsonField) -> (verdict: Result<bool, Fault>)
    ensures
        verdict == token_verdict_of(field@),
{
    match field {
        JsonField::NotJson => Err(Fault::MalformedReply),
        JsonField::Text(s) => {
            let expected = String::from_str("Invalid token");
            Ok(*s == expected)
        },
        JsonField::Null => Ok(false),
        JsonField::Other => Ok(false),
    }
}

/// Judges a `verify` reply, reading its `response` field as JSON.
pub fn verify_outcome(page: &Option<String>) -> (verdict: Result<bool, Fault>)
    ensures
        verdict == verify_decision_of(page_view(page)),
{
    match page {
        None => Ok(false),
        Some(body) => {
            let field = json_field(body.as_str(), "response");
            token_verdict(&field)
        },
    }
}

/// The verdict on a `verify` reply: verified exactly when the reply's
/// `response` field is the string "Invalid token"; not verified without a
/// reply or with any other field; a reply that is not JSON stops.
pub proof fn lemma_verify_verdict(page: Option<Seq<char>>)
    ensures
        page is None ==> verify_decision_of(page) == Ok::<bool, Fault>(false),
        page matches Some(body) ==> match json_field_of(body, "response"@) {
            JsonFieldView::NotJson => verify_decision_of(page) == Err::<bool, Fault>(Fault::MalformedReply),
            JsonFieldView::Text(t) => verify_decision_of(page) == Ok::<bool, Fault>(t == "Invalid token"@),
            _ => verify_decision_of(page) == Ok::<bool, Fault>(false),
        },
{
}

/// The decision on a `whoami` reply: no reply or a present, non-null
/// subject rejects; a null or missing subject, or a reply that is not JSON,
/// stops.
pub proof fn lemma_whoami_decision(page: Option<Seq<char>>)
    ensures
        page is None ==> whoami_decision_of(page) == AuthOutcome::Rejected,
        page matches Some(body) ==> match json_field_of(body, "sub"@) {
            JsonFieldView::NotJson => whoami_decision_of(page) == AuthOutcome::Broken(Fault::MalformedReply),
            JsonFieldView::Null => whoami_decision_of(page) == AuthOutcome::Broken(Fault::MissingSubject),
            _ => whoami_decision_of(page) == AuthOutcome::Rejected,
        },
{
}

} // verus!
