use courselend::auth::{
    subject_decision, token_verdict, verify_outcome, verify_url, whoami_outcome, whoami_url, AuthOutcome,
};
use courselend::json::JsonField;
use courselend::protocol::Fault;

#[test]
fn addresses_carry_the_token() {
    assert_eq!(whoami_url("abc"), "https://courseLend.akerhielm.nu/auth/whoami/abc");
    assert_eq!(verify_url("abc"), "https://courselend.akerhielm.nu/auth/verify/abc");
}

#[test]
fn whoami_without_reply_rejects() {
    assert_eq!(whoami_outcome(&None), AuthOutcome::Rejected);
}

#[test]
fn whoami_with_subject_rejects() {
    assert_eq!(whoami_outcome(&Some("{\"sub\":\"user-1\"}".to_string())), AuthOutcome::Rejected);
    assert_eq!(whoami_outcome(&Some("{\"sub\":17}".to_string())), AuthOutcome::Rejected);
}

#[test]
fn whoami_without_subject_stops() {
    assert_eq!(whoami_outcome(&Some("{}".to_string())), AuthOutcome::Broken(Fault::MissingSubject));
    assert_eq!(whoami_outcome(&Some("{\"sub\":null}".to_string())), AuthOutcome::Broken(Fault::MissingSubject));
    assert_eq!(whoami_outcome(&Some("[1,2]".to_string())), AuthOutcome::Broken(Fault::MissingSubject));
}

#[test]
fn whoami_not_json_stops() {
    assert_eq!(whoami_outcome(&Some("<html>".to_string())), AuthOutcome::Broken(Fault::MalformedReply));
}

#[test]
fn subject_decision_on_each_field() {
    assert_eq!(subject_decision(&JsonField::NotJson), AuthOutcome::Broken(Fault::MalformedReply));
    assert_eq!(subject_decision(&JsonField::Null), AuthOutcome::Broken(Fault::MissingSubject));
    assert_eq!(subject_decision(&JsonField::Text("x".to_string())), AuthOutcome::Rejected);
    assert_eq!(subject_decision(&JsonField::Other), AuthOutcome::Rejected);
}

#[test]
fn verify_counts_invalid_token_as_verified() {
    assert_eq!(verify_outcome(&Some("{\"response\":\"Invalid token\"}".to_string())), Ok(true));
    assert_eq!(verify_outcome(&Some("{\"response\":\"Valid token\"}".to_string())), Ok(false));
    assert_eq!(verify_outcome(&Some("{\"response\":1}".to_string())), Ok(false));
    assert_eq!(verify_outcome(&Some("{}".to_string())), Ok(false));
    assert_eq!(verify_outcome(&None), Ok(false));
    assert_eq!(verify_outcome(&Some("not json".to_string())), Err(Fault::MalformedReply));
}

#[test]
fn token_verdict_on_each_field() {
    assert_eq!(token_verdict(&JsonField::Text("Invalid token".to_string())), Ok(true));
    assert_eq!(token_verdict(&JsonField::Text("invalid token".to_string())), Ok(false));
    assert_eq!(token_verdict(&JsonField::Null), Ok(false));
    assert_eq!(token_verdict(&JsonField::Other), Ok(false));
    assert_eq!(token_verdict(&JsonField::NotJson), Err(Fault::MalformedReply));
}
