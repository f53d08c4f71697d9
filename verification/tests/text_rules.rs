use courselend::text::{concat_all, course_list, decimal_string, error_text};

#[test]
fn error_line_prefixes_the_message() {
    assert_eq!(error_text("Record not found"), "Error: Record not found");
    assert_eq!(error_text(""), "Error: ");
}

#[test]
fn course_list_joins_names() {
    let names = vec!["Algebra".to_string(), "Analysis".to_string(), "Logic".to_string()];
    assert_eq!(course_list(&names), "Algebra, Analysis, Logic");
    assert_eq!(course_list(&vec!["Algebra".to_string()]), "Algebra");
    assert_eq!(course_list(&Vec::new()), "");
}

#[test]
fn course_list_keeps_empty_names() {
    let names = vec!["".to_string(), "".to_string()];
    assert_eq!(course_list(&names), ", ");
}

#[test]
fn concat_all_writes_parts_in_order() {
    let parts = vec!["{\"a\":1}".to_string(), "".to_string(), "{\"b\":2}".to_string()];
    assert_eq!(concat_all(&parts), "{\"a\":1}{\"b\":2}");
    assert_eq!(concat_all(&Vec::new()), "");
}

#[test]
fn decimal_matches_to_string() {
    for n in [0u64, 7, 9, 10, 30, 56666666, 1_000_000_007, u64::MAX] {
        assert_eq!(decimal_string(n), n.to_string());
    }
}
