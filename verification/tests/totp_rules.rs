use courselend::totp::{code_for_window, totp_codes};

#[test]
fn window_code_is_digest_tail() {
    assert_eq!(code_for_window("key", 0), "5d594f");
}

#[test]
fn codes_of_three_windows() {
    let codes = totp_codes("secret", 1_700_000_000);
    assert_eq!(codes, vec!["459fae".to_string(), "b98715".to_string(), "643733".to_string()]);
}

#[test]
fn neighbouring_times_share_codes() {
    let a = totp_codes("secret", 1_700_000_005);
    let b = totp_codes("secret", 1_700_000_000);
    assert_eq!(a, b);
}

#[test]
fn codes_are_six_lowercase_hex_digits() {
    for now in [30u64, 31, 1_700_000_000, u64::MAX - 30] {
        for code in totp_codes("k", now) {
            assert_eq!(code.len(), 6);
            assert!(code.chars().all(|c| c.is_ascii_digit() || ('a'..='f').contains(&c)));
        }
    }
}

#[test]
fn next_window_shifts_codes() {
    let earlier = totp_codes("secret", 1_700_000_000);
    let later = totp_codes("secret", 1_700_000_030);
    assert_eq!(later[0], earlier[1]);
    assert_eq!(later[1], earlier[2]);
}
