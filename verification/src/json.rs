//! What the service reads from and writes as JSON, through `serde_json`.

use vstd::prelude::*;

verus! {

/// What a JSON document holds under one key of its top-level object.
pub enum JsonField {
    /// The text is not a JSON document.
    NotJson,
    /// `null`, a missing key, or a document that is not an object.
    Null,
    /// A JSON string.
    Text(String),
    /// A number, a boolean, an array or an object.
    Other,
}

/// [`JsonField`] with the string taken by its characters.
pub enum JsonFieldView {
    NotJson,
    Null,
    Text(Seq<char>),
    Other,
}

impl View for JsonField {
    type V = JsonFieldView;

    open spec fn view(&self) -> JsonFieldView {
        match self {
            JsonField::NotJson => JsonFieldView::NotJson,
            JsonField::Null => JsonFieldView::Null,
            JsonField::Text(s) => JsonFieldView::Text(s@),
            JsonField::Other => JsonFieldView::Other,
        }
    }
}

/// What `serde_json` finds under `key` in the JSON text `text`.
pub uninterp spec fn json_field_of(text: Seq<char>, key: Seq<char>) -> JsonFieldView;

/// The lowercase hexadecimal digit for `d` (0 to 15).
pub open spec fn lower_hex_digit(d: int) -> char {
    if d < 10 { (d + 48) as char } else { (d + 87) as char }
}

/// How `serde_json` writes one character inside a JSON string: a quote
/// and a backslash get a backslash before them, backspace, form feed,
/// line feed, carriage return and tab their short escapes, the other
/// control characters below U+0020 `\u00` and two lowercase hex digits, and
/// every other character stands as it is.
pub open spec fn json_escape(c: char) -> Seq<char> {
    if c == '"' {
        seq!['\\', '"']
    } else if c == '\\' {
        seq!['\\', '\\']
    } else if c == '\u{8}' {
        seq!['\\', 'b']
    } else if c == '\u{c}' {
        seq!['\\', 'f']
    } else if c == '\n' {
        seq!['\\', 'n']
    } else if c == '\r' {
        seq!['\\', 'r']
    } else if c == '\t' {
        seq!['\\', 't']
    } else if (c as u32) < 0x20 {
        seq!['\\', 'u', '0', '0', lower_hex_digit((c as u32 / 16) as int), lower_hex_digit((c as u32 % 16) as int)]
    } else {
        seq![c]
    }
}

/// The characters of `s`, each written as `serde_json` writes it inside a
/// JSON string.
pub open spec fn json_escaped(s: Seq<char>) -> Seq<char>
    decreases s.len(),
{
    if s.len() == 0 {
        Seq::empty()
    } else {
        json_escaped(s.drop_last()) + json_escape(s.last())
    }
}

/// `s` as a JSON string literal: its escaped characters between quotes.
pub open spec fn json_string_literal(s: Seq<char>) -> Seq<char> {
    seq!['"'] + json_escaped(s) + seq!['"']
}

/// A character that `serde_json` writes as it is.
pub open spec fn needs_no_escape(c: char) -> bool {
    c != '"' && c != '\\' && (c as u32) >= 0x20
}

/// A string without quotes, backslashes and control characters is written
/// unchanged between the quotes.
pub proof fn lemma_plain_string_literal(s: Seq<char>)
    requires
        forall|i: int| 0 <= i < s.len() ==> needs_no_escape(#[trigger] s[i]),
    ensures
        json_string_literal(s) == seq!['"'] + s + seq!['"'],
{
    lemma_plain_escaped(s);
}

proof fn lemma_plain_escaped(s: Seq<char>)
    requires
        forall|i: int| 0 <= i < s.len() ==> needs_no_escape(#[trigger] s[i]),
    ensures
        json_escaped(s) == s,
    decreases s.len(),
{
    if s.len() > 0 {
        let init = s.drop_last();
        assert forall|i: int| 0 <= i < init.len() implies needs_no_escape(#[trigger] init[i]) by {
            assert(init[i] == s[i]);
        }
        lemma_plain_escaped(init);
        let c = s[s.len() - 1];
        assert(needs_no_escape(c));
        assert(json_escape(c) == seq![c]);
        assert(json_escaped(s) =~= s);
    } else {
        assert(json_escaped(s) =~= s);
    }
}

/// Parses `text` with `serde_json::from_str` into a `serde_json::Value`
/// and indexes it with `key` (`Index<&str>`, which gives `Null` for a
/// missing key or a value that is not an object). The contract only names
/// the outcome: it is a function of the text and the key.
#[verifier::external_body]
pub(crate) fn json_field(text: &str, key: &str) -> (field: JsonField)
    ensures
        field@ == json_field_of(text@, key@),
{
    match serde_json::from_str::<serde_json::Value>(text) {
        Err(_) => JsonField::NotJson,
        Ok(value) => match &value[key] {
            serde_json::Value::Null => JsonField::Null,
            serde_json::Value::String(s) => JsonField::Text(s.clone()),
            serde_json::Value::Bool(_) => JsonField::Other,
            serde_json::Value::Number(_) => JsonField::Other,
            serde_json::Value::Array(_) => JsonField::Other,
            serde_json::Value::Object(_) => JsonField::Other,
        },
    }
}

/// Calls `serde_json::to_string` on a string slice. For a `str` the source
/// (`format_escaped_str` with the compact formatter) writes a quote, the
/// characters escaped by its `ESCAPE` table and `write_char_escape`, and a
/// quote, into a `Vec<u8>`, whose writes do not fail, so the call always
/// succeeds with that text.
#[verifier::external_body]
pub(crate) fn json_quoted(s: &str) -> (quoted: String)
    ensures
        quoted@ == json_string_literal(s@),
{
    serde_json::to_string(s).unwrap()
}

} // verus!
