//! Time-based one-time codes: six hexadecimal characters of a SHA-256
//! digest of a shared secret followed by a thirty-second time window.

use vstd::prelude::*;
use vstd::string::StrSliceExecFns;
use crate::text::{decimal, decimal_string, string_views};

verus! {

/// `sha256::digest` of the UTF-8 bytes of `input`, as lowercase hex.
pub uninterp spec fn sha256_hex_of(input: Seq<char>) -> Seq<char>;

/// A lowercase hexadecimal digit.
pub open spec fn is_lower_hex(c: char) -> bool {
    ('0' as u32 <= c as u32 <= '9' as u32) || ('a' as u32 <= c as u32 <= 'f' as u32)
}

/// Calls `sha256::digest` on a string slice. The crate hashes the slice's
/// bytes with `sha2::Sha256` and writes the 32 bytes with `hex::encode`, so
/// the result is 64 lowercase hexadecimal digits; which digits is named,
/// not stated.
#[verifier::external_body]
fn sha256_digest(input: &str) -> (digest: String)
    ensures
        digest@ == sha256_hex_of(input@),
        digest@.len() == 64,
        forall|i: int| 0 <= i < 64 ==> is_lower_hex(#[trigger] digest@[i]),
{
    sha256::digest(input)
}

/// The digest of the secret followed by the number of time window `window`
/// in decimal.
pub open spec fn window_digest(key: Seq<char>, window: nat) -> Seq<char> {
    sha256_hex_of(key + decimal(window))
}

/// The code of time window `window`: the last six characters of its digest.
pub open spec fn window_code(key: Seq<char>, window: nat) -> Seq<char> {
    let d = window_digest(key, window);
    d.subrange(d.len() - 6, d.len() as int)
}

/// The codes accepted at `now` seconds after the epoch: those of the window
/// before, the current window and the window after, each thirty seconds long.
pub open spec fn accepted_codes(key: Seq<char>, now: nat) -> Seq<Seq<char>> {
    seq![
        window_code(key, ((now - 30) / 30) as nat),
        window_code(key, now / 30),
        window_code(key, (now + 30) / 30),
    ]
}

/// Six lowercase hexadecimal digits.
pub open spec fn is_code_shape(code: Seq<char>) -> bool {
    code.len() == 6 && forall|j: int| 0 <= j < 6 ==> is_lower_hex(#[trigger] code[j])
}

/// The code of time window `window` for the secret `key`.
pub fn code_for_window(key: &str, window: u64) -> (code: String)
    ensures
        window_digest(key@, window as nat).len() == 64,
        code@ == window_code(key@, window as nat),
        is_code_shape(code@),
{
    let number = decimal_string(window);
    let input = String::from_str(key).concat(number.as_str());
    let digest = sha256_digest(input.as_str());
    let length = digest.as_str().unicode_len();
    let tail = digest.as_str().substring_char(length - 6, length);
    let code = tail.to_owned();
    proof {
        assert forall|i: int| 0 <= i < 6 implies is_lower_hex(#[trigger] code@[i]) by {
            assert(code@[i] == digest@[58 + i]);
        }
    }
    code
}

/// The codes accepted at `now_secs` seconds after the epoch. Outside the
/// range of the `requires` the window before or after overflows a `u64`.
pub fn totp_codes(key: &str, now_secs: u64) -> (codes: Vec<String>)
    requires
        30 <= now_secs <= u64::MAX - 30,
    ensures
        codes.len() == 3,
        string_views(codes@) == accepted_codes(key@, now_secs as nat),
        forall|i: int| 0 <= i < 3 ==> is_code_shape(#[trigger] codes@[i]@),
        window_digest(key@, ((now_secs - 30) / 30) as nat).len() == 64,
        window_digest(key@, (now_secs / 30) as nat).len() == 64,
        window_digest(key@, ((now_secs + 30) / 30) as nat).len() == 64,
{
    let before = code_for_window(key, (now_secs - 30) / 30);
    let current = code_for_window(key, now_secs / 30);
    let after = code_for_window(key, (now_secs + 30) / 30);
    let mut codes = Vec::new();
    codes.push(before);
    codes.push(current);
    codes.push(after);
    proof {
        assert(string_views(codes@) =~= accepted_codes(key@, now_secs as nat));
    }
    codes
}

/// Two times in the same thirty-second window accept the same codes, and a
/// time in the next window accepts the last two codes of the earlier time as
/// its first two.
pub proof fn lemma_codes_follow_windows(key: Seq<char>, now1: nat, now2: nat)
    requires
        now1 >= 30,
        now2 >= 30,
    ensures
        now1 / 30 == now2 / 30 ==> accepted_codes(key, now1) == accepted_codes(key, now2),
        now2 / 30 == now1 / 30 + 1 ==> accepted_codes(key, now2)[0] == accepted_codes(key, now1)[1]
            && accepted_codes(key, now2)[1] == accepted_codes(key, now1)[2],
{
    assert((now1 - 30) / 30 + 1 == now1 / 30);
    assert((now2 - 30) / 30 + 1 == now2 / 30);
    assert(now1 / 30 + 1 == (now1 + 30) / 30);
    assert(now2 / 30 + 1 == (now2 + 30) / 30);
}

} // verus!
