//! Texts: comparison, prefixes, lists and decimal numbers.

use vstd::prelude::*;
use vstd::string::{StrSliceExecFns, StringExecFns};

verus! {

/// A text without the run of `c` at its end.
pub open spec fn without_trailing(text: Seq<char>, c: char) -> Seq<char>
    decreases text.len(),
{
    if text.len() > 0 && text.last() == c {
        without_trailing(text.drop_last(), c)
    } else {
        text
    }
}

/// What follows a prefix in a text, where the text starts with it.
pub open spec fn after_prefix(text: Seq<char>, prefix: Seq<char>) -> Option<Seq<char>> {
    if prefix.is_prefix_of(text) {
        Some(text.skip(prefix.len() as int))
    } else {
        None
    }
}

/// The parts in their order, with a separator between each two.
pub open spec fn joined(parts: Seq<Seq<char>>, separator: Seq<char>) -> Seq<char>
    decreases parts.len(),
{
    if parts.len() == 0 {
        Seq::empty()
    } else if parts.len() == 1 {
        parts[0]
    } else {
        joined(parts.drop_last(), separator) + separator + parts.last()
    }
}

/// The decimal digit for a number below ten.
pub open spec fn digit(n: nat) -> char {
    (('0' as u32 + n) as u32) as char
}

/// A natural number in decimal, without leading zeros.
pub open spec fn digits(n: nat) -> Seq<char>
    decreases n,
{
    if n < 10 {
        seq![digit(n)]
    } else {
        digits(n / 10).push(digit(n % 10))
    }
}

/// A number in decimal, with a minus sign before a negative one.
pub open spec fn decimal(n: int) -> Seq<char> {
    if n < 0 {
        seq!['-'] + digits((-n) as nat)
    } else {
        digits(n as nat)
    }
}

/// The texts of a list of strings.
pub open spec fn texts(list: Seq<String>) -> Seq<Seq<char>> {
    list.map_values(|s: String| s@)
}

/// The text of an optional string.
pub open spec fn optional_text(s: Option<&str>) -> Option<Seq<char>> {
    match s {
        Some(text) => Some(text@),
        None => None,
    }
}

/// Whether two texts are the same.
pub fn text_eq(a: &str, b: &str) -> (r: bool)
    ensures
        r == (a@ == b@),
{
    a.to_owned() == b.to_owned()
}

/// The text without the run of `c` at its end.
pub fn trim_trailing(text: &str, c: char) -> (r: String)
    ensures
        r@ == without_trailing(text@, c),
{
    let mut end: usize = text.unicode_len();
    assert(text@.take(end as int) =~= text@);
    while end > 0 && text.get_char(end - 1) == c
        invariant
            end <= text@.len(),
            without_trailing(text@.take(end as int), c) == without_trailing(text@, c),
        ensures
            end <= text@.len(),
            without_trailing(text@.take(end as int), c) == without_trailing(text@, c),
            end == 0 || text@[end - 1] != c,
        decreases end,
    {
        assert(text@.take(end as int).drop_last() =~= text@.take(end - 1));
        end = end - 1;
    }
    assert(text@.take(end as int) =~= text@.subrange(0, end as int));
    text.substring_char(0, end).to_owned()
}

/// What follows a prefix in a text, where the text starts with it.
pub fn strip_prefix<'a>(text: &'a str, prefix: &str) -> (r: Option<&'a str>)
    ensures
        match r {
            Some(rest) => after_prefix(text@, prefix@) == Some(rest@),
            None => after_prefix(text@, prefix@) is None,
        },
{
    let len: usize = text.unicode_len();
    let n: usize = prefix.unicode_len();
    if len < n {
        return None;
    }
    let head = text.substring_char(0, n);
    if text_eq(head, prefix) {
        Some(text.substring_char(n, len))
    } else {
        None
    }
}

/// The parts in their order, with a separator between each two.
pub fn join(parts: &Vec<String>, separator: &str) -> (r: String)
    ensures
        r@ == joined(texts(parts@), separator@),
{
    let mut out = String::new();
    let mut i: usize = 0;
    while i < parts.len()
        invariant
            i <= parts.len(),
            out@ == joined(texts(parts@).take(i as int), separator@),
        decreases parts.len() - i,
    {
        let ghost before = texts(parts@).take(i as int);
        let ghost now = texts(parts@).take(i + 1);
        assert(now.drop_last() =~= before);
        if i > 0 {
            out.append(separator);
        }
        out.append(parts[i].as_str());
        assert(i == 0 ==> out@ =~= parts@[0]@);
        i = i + 1;
    }
    assert(texts(parts@).take(i as int) =~= texts(parts@));
    out
}

/// A natural number in decimal.
pub fn format_digits(n: u64) -> (r: String)
    ensures
        r@ == digits(n as nat),
    decreases n,
{
    let mut out = if n < 10 {
        String::new()
    } else {
        format_digits(n / 10)
    };
    let d: u64 = n % 10;
    let s: &str = if d == 0 { "0" } else if d == 1 { "1" } else if d == 2 { "2" }
        else if d == 3 { "3" } else if d == 4 { "4" } else if d == 5 { "5" }
        else if d == 6 { "6" } else if d == 7 { "7" } else if d == 8 { "8" } else { "9" };
    proof {
        reveal_strlit("0");
        reveal_strlit("1");
        reveal_strlit("2");
        reveal_strlit("3");
        reveal_strlit("4");
        reveal_strlit("5");
        reveal_strlit("6");
        reveal_strlit("7");
        reveal_strlit("8");
        reveal_strlit("9");
        assert(s@ =~= seq![digit(d as nat)]);
    }
    out.append(s);
    assert(out@ =~= digits(n as nat));
    out
}

/// A number in decimal, with a minus sign before a negative one.
pub fn format_decimal(n: i64) -> (r: String)
    ensures
        r@ == decimal(n as int),
{
    if n >= 0 {
        return format_digits(n as u64);
    }
    let magnitude: u64 = if n == i64::MIN { 9223372036854775808u64 } else { (-n) as u64 };
    let mut out = "-".to_owned();
    out.append(format_digits(magnitude).as_str());
    proof {
        reveal_strlit("-");
        assert("-"@ =~= seq!['-']);
    }
    out
}

/// Trimming takes away all of the run at the end and nothing else.
pub proof fn law_trimming_takes_the_whole_run(text: Seq<char>, c: char)
    ensures
        without_trailing(text, c).is_prefix_of(text),
        without_trailing(text, c).len() == 0 || without_trailing(text, c).last() != c,
        forall|i: int| without_trailing(text, c).len() <= i < text.len() ==> text[i] == c,
    decreases text.len(),
{
    if text.len() > 0 && text.last() == c {
        law_trimming_takes_the_whole_run(text.drop_last(), c);
        assert forall|i: int| without_trailing(text, c).len() <= i < text.len() implies text[i] == c by {
            if i < text.len() - 1 {
                assert(text.drop_last()[i] == text[i]);
            }
        }
    }
}

} // verus!
