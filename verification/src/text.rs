//! The text the service builds: error lines, lists of course names, runs of
//! serialized records, and decimal numbers.

use vstd::prelude::*;

verus! {

/// The characters of each string, in order.
pub open spec fn string_views(v: Seq<String>) -> Seq<Seq<char>> {
    v.map_values(|s: String| s@)
}

/// `parts` written one after another.
pub open spec fn concatenation(parts: Seq<Seq<char>>) -> Seq<char>
    decreases parts.len(),
{
    if parts.len() == 0 {
        Seq::empty()
    } else {
        concatenation(parts.drop_last()) + parts.last()
    }
}

/// `parts` with `sep` between each two neighbours.
pub open spec fn joined(parts: Seq<Seq<char>>, sep: Seq<char>) -> Seq<char>
    decreases parts.len(),
{
    if parts.len() == 0 {
        Seq::empty()
    } else if parts.len() == 1 {
        parts[0]
    } else {
        joined(parts.drop_last(), sep) + sep + parts.last()
    }
}

/// The separator between course names: a comma and a space.
pub open spec fn comma_space() -> Seq<char> {
    seq![',', ' ']
}

/// `parts`, each followed by a comma and a space.
pub open spec fn each_followed_by_comma(parts: Seq<Seq<char>>) -> Seq<char>
    decreases parts.len(),
{
    if parts.len() == 0 {
        Seq::empty()
    } else {
        each_followed_by_comma(parts.drop_last()) + parts.last() + comma_space()
    }
}

/// `s` without its last character; the empty string stays empty.
pub open spec fn without_last_char(s: Seq<char>) -> Seq<char> {
    if s.len() == 0 { s } else { s.drop_last() }
}

/// The line that reports a failed database operation.
pub open spec fn error_line(message: Seq<char>) -> Seq<char> {
    "Error: "@ + message
}

/// The decimal digit for `d` (0 to 9).
pub open spec fn digit_char(d: int) -> char {
    if d == 0 { '0' }
    else if d == 1 { '1' }
    else if d == 2 { '2' }
    else if d == 3 { '3' }
    else if d == 4 { '4' }
    else if d == 5 { '5' }
    else if d == 6 { '6' }
    else if d == 7 { '7' }
    else if d == 8 { '8' }
    else { '9' }
}

/// `n` written in decimal, without leading zeros.
pub open spec fn decimal(n: nat) -> Seq<char>
    decreases n,
{
    if n < 10 {
        seq![digit_char(n as int)]
    } else {
        decimal(n / 10).push(digit_char((n % 10) as int))
    }
}

/// The number that a decimal digit stands for.
pub open spec fn digit_value(c: char) -> int {
    if c == '0' { 0 }
    else if c == '1' { 1 }
    else if c == '2' { 2 }
    else if c == '3' { 3 }
    else if c == '4' { 4 }
    else if c == '5' { 5 }
    else if c == '6' { 6 }
    else if c == '7' { 7 }
    else if c == '8' { 8 }
    else { 9 }
}

/// The number that a string of decimal digits stands for.
pub open spec fn decimal_value(s: Seq<char>) -> int
    decreases s.len(),
{
    if s.len() == 0 {
        0
    } else {
        decimal_value(s.drop_last()) * 10 + digit_value(s.last())
    }
}

/// `String::push`: appends one character at the end, as std documents.
#[verifier::external_body]
fn push_char(s: &mut String, c: char)
    ensures
        final(s)@ == old(s)@.push(c),
{
    s.push(c);
}

/// `String::pop`: removes the last character and returns it, or returns
/// `None` and leaves the string as it is when it is empty, as std documents.
#[verifier::external_body]
fn pop_char(s: &mut String) -> (c: Option<char>)
    ensures
        old(s)@.len() == 0 ==> c is None && final(s)@ == old(s)@,
        old(s)@.len() > 0 ==> c == Some(old(s)@.last()) && final(s)@ == old(s)@.drop_last(),
{
    s.pop()
}

/// The line that reports a failed database operation with `message`.
pub fn error_text(message: &str) -> (line: String)
    ensures
        line@ == error_line(message@),
{
    String::from_str("Error: ").concat(message)
}

/// All `parts` written one after another.
pub fn concat_all(parts: &Vec<String>) -> (all: String)
    ensures
        all@ == concatenation(string_views(parts@)),
{
    let mut all = String::new();
    let mut i: usize = 0;
    while i < parts.len()
        invariant
            i <= parts.len(),
            all@ == concatenation(string_views(parts@.subrange(0, i as int))),
        decreases parts.len() - i,
    {
        proof {
            assert(string_views(parts@.subrange(0, i + 1)).drop_last() =~= string_views(parts@.subrange(0, i as int)));
        }
        all.append(parts[i].as_str());
        i = i + 1;
    }
    proof {
        assert(parts@.subrange(0, parts.len() as int) =~= parts@);
    }
    all
}

/// Each name followed by a comma and a space, with the last two
/// characters then taken off again.
pub fn course_list(names: &Vec<String>) -> (list: String)
    ensures
        list@ == without_last_char(without_last_char(each_followed_by_comma(string_views(names@)))),
        list@ == joined(string_views(names@), comma_space()),
{
    let mut list = String::new();
    let mut i: usize = 0;
    while i < names.len()
        invariant
            i <= names.len(),
            list@ == each_followed_by_comma(string_views(names@.subrange(0, i as int))),
        decreases names.len() - i,
    {
        proof {
            assert(string_views(names@.subrange(0, i + 1)).drop_last() =~= string_views(names@.subrange(0, i as int)));
        }
        list.append(names[i].as_str());
        list.append(", ");
        proof {
            reveal_strlit(", ");
        }
        i = i + 1;
    }
    proof {
        assert(names@.subrange(0, names.len() as int) =~= names@);
        lemma_trimmed_list_is_joined(string_views(names@));
    }
    pop_char(&mut list);
    pop_char(&mut list);
    list
}

/// Each name followed by a comma and a space is the names joined by a
/// comma and a space, plus one more comma and space.
proof fn lemma_each_followed_is_joined(parts: Seq<Seq<char>>)
    requires
        parts.len() > 0,
    ensures
        each_followed_by_comma(parts) == joined(parts, comma_space()) + comma_space(),
    decreases parts.len(),
{
    if parts.len() > 1 {
        lemma_each_followed_is_joined(parts.drop_last());
        assert(each_followed_by_comma(parts) =~= joined(parts, comma_space()) + comma_space());
    } else {
        assert(each_followed_by_comma(parts.drop_last()) =~= Seq::<char>::empty());
        assert(each_followed_by_comma(parts) =~= joined(parts, comma_space()) + comma_space());
    }
}

/// Writing each name followed by a comma and a space and then taking off the
/// last two characters gives the names joined by a comma and a space.
pub proof fn lemma_trimmed_list_is_joined(parts: Seq<Seq<char>>)
    ensures
        without_last_char(without_last_char(each_followed_by_comma(parts))) == joined(parts, comma_space()),
{
    if parts.len() == 0 {
    } else {
        lemma_each_followed_is_joined(parts);
        let j = joined(parts, comma_space());
        assert((j + comma_space()).drop_last().drop_last() =~= j);
    }
}

/// The character for the digit `d`.
fn digit(d: u64) -> (c: char)
    requires
        d < 10,
    ensures
        c == digit_char(d as int),
{
    match d {
        0 => '0',
        1 => '1',
        2 => '2',
        3 => '3',
        4 => '4',
        5 => '5',
        6 => '6',
        7 => '7',
        8 => '8',
        _ => '9',
    }
}

/// Appends `n` in decimal to `s`.
fn push_decimal(s: &mut String, n: u64)
    ensures
        final(s)@ == old(s)@ + decimal(n as nat),
    decreases n,
{
    if n >= 10 {
        push_decimal(s, n / 10);
    }
    push_char(s, digit(n % 10));
    proof {
        if n >= 10 {
            assert(old(s)@ + decimal(n as nat) =~= old(s)@ + decimal((n / 10) as nat) + seq![digit_char((n % 10) as int)]);
        } else {
            assert(old(s)@ + decimal(n as nat) =~= old(s)@.push(digit_char(n as int)));
        }
    }
}

/// `n` in decimal, as `u64::to_string` writes it.
pub fn decimal_string(n: u64) -> (s: String)
    ensures
        s@ == decimal(n as nat),
{
    let mut s = String::new();
    push_decimal(&mut s, n);
    proof {
        assert(Seq::<char>::empty() + decimal(n as nat) =~= decimal(n as nat));
    }
    s
}

/// A decimal number reads back as the number it was written from, and has
/// at least one digit.
pub proof fn lemma_decimal_reads_back(n: nat)
    ensures
        decimal_value(decimal(n)) == n,
        decimal(n).len() >= 1,
    decreases n,
{
    let d = (n % 10) as int;
    assert(digit_value(digit_char(d)) == d);
    if n >= 10 {
        lemma_decimal_reads_back(n / 10);
        assert(decimal(n).drop_last() =~= decimal(n / 10));
        assert(decimal(n).last() == digit_char(d));
        assert(decimal_value(decimal(n)) == decimal_value(decimal(n / 10)) * 10 + d);
        assert((n / 10) * 10 + n % 10 == n) by (nonlinear_arith);
    } else {
        assert(decimal(n).drop_last() =~= Seq::<char>::empty());
        assert(decimal(n).last() == digit_char(d));
        assert(decimal_value(decimal(n)) == decimal_value(Seq::<char>::empty()) * 10 + d);
    }
}

/// Two numbers with the same decimal string are equal.
pub proof fn lemma_decimal_injective(m: nat, n: nat)
    requires
        decimal(m) == decimal(n),
    ensures
        m == n,
{
    lemma_decimal_reads_back(m);
    lemma_decimal_reads_back(n);
}

} // verus!
