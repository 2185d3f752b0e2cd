//! What is promised of texts and numbers.

use vstd::prelude::*;

verus! {

/// Two texts are the same where they have the same characters in the same places.
pub proof fn law_text_eq(a: &str, b: &str, r: bool)
    requires
        call_ensures(crate::text::text_eq, (a, b), r),
    ensures
        r <==> a@.len() == b@.len() && forall|i: int| 0 <= i < a@.len() ==> a@[i] == b@[i],
{
    if a@.len() == b@.len() && forall|i: int| 0 <= i < a@.len() ==> a@[i] == b@[i] {
        assert(a@ =~= b@);
    }
}

/// A trimmed text is the start of the text, does not end with the trimmed character,
/// and lacks only that character.
pub proof fn law_trim_trailing(text: &str, c: char, r: String)
    requires
        call_ensures(crate::text::trim_trailing, (text, c), r),
    ensures
        r@.len() <= text@.len(),
        forall|i: int| 0 <= i < r@.len() ==> r@[i] == text@[i],
        forall|i: int| r@.len() <= i < text@.len() ==> text@[i] == c,
        r@.len() > 0 ==> r@[r@.len() - 1] != c,
{
    crate::text::law_trimming_takes_the_whole_run(text@, c);
}

/// A stripped text, behind its prefix again, is the text; nothing is stripped exactly
/// where the text does not start with the prefix.
pub proof fn law_strip_prefix(text: &str, prefix: &str, r: Option<&str>)
    requires
        call_ensures(crate::text::strip_prefix, (text, prefix), r),
    ensures
        r matches Some(rest) ==> text@ == prefix@ + rest@,
        r is None ==> forall|rest: Seq<char>| text@ != #[trigger] (prefix@ + rest),
{
    if r is Some {
        assert(text@ =~= prefix@ + text@.skip(prefix@.len() as int));
    } else {
        assert forall|rest: Seq<char>| text@ != #[trigger] (prefix@ + rest) by {
            if text@ == prefix@ + rest {
                assert(prefix@.is_prefix_of(text@));
            }
        }
    }
}

/// A list of texts falls apart into the lists before and behind a separator.
pub proof fn law_joined_falls_apart(
    front: Seq<Seq<char>>,
    back: Seq<Seq<char>>,
    separator: Seq<char>,
)
    requires
        front.len() > 0,
        back.len() > 0,
    ensures
        crate::text::joined(front + back, separator) == crate::text::joined(front, separator) + separator + crate::text::joined(
            back,
            separator,
        ),
    decreases back.len(),
{
    let all = front + back;
    assert(all.last() == back.last());
    if back.len() == 1 {
        assert(all.drop_last() =~= front);
        assert(crate::text::joined(back, separator) == back[0]);
    } else {
        assert(all.drop_last() =~= front + back.drop_last());
        law_joined_falls_apart(front, back.drop_last(), separator);
        assert(crate::text::joined(all, separator) =~= crate::text::joined(front, separator) + separator + crate::text::joined(
            back,
            separator,
        ));
    }
}

/// A list of no strings joins to nothing.
pub proof fn law_join_of_none(parts: Vec<String>, separator: &str, r: String)
    requires
        call_ensures(crate::text::join, (&parts, separator), r),
        parts@.len() == 0,
    ensures
        r@.len() == 0,
{
}

/// A list of one text is that text.
pub proof fn law_joined_of_one(text: Seq<char>, separator: Seq<char>)
    ensures
        crate::text::joined(seq![text], separator) == text,
{
}

/// Joined strings hold each of them in its place: behind the ones before it and a
/// separator, and before a separator and the ones behind it.
pub proof fn law_join(parts: Vec<String>, separator: &str, r: String, k: int)
    requires
        call_ensures(crate::text::join, (&parts, separator), r),
        0 <= k < parts@.len(),
    ensures
        ({
            let all = Seq::new(parts@.len(), |i: int| parts@[i]@);
            let before = if k == 0 {
                Seq::empty()
            } else {
                crate::text::joined(all.take(k), separator@) + separator@
            };
            let behind = if k == parts@.len() - 1 {
                Seq::empty()
            } else {
                separator@ + crate::text::joined(all.skip(k + 1), separator@)
            };
            r@ == before + parts@[k]@ + behind
        }),
{
    let all = Seq::new(parts@.len(), |i: int| parts@[i]@);
    assert(crate::text::texts(parts@) =~= all);
    let middle = seq![all[k]];
    law_joined_of_one(all[k], separator@);
    assert(all =~= all.take(k) + (middle + all.skip(k + 1)));
    assert(all.take(0) + (middle + all.skip(k + 1)) =~= middle + all.skip(k + 1));
    if k < parts@.len() - 1 {
        law_joined_falls_apart(middle, all.skip(k + 1), separator@);
    } else {
        assert(middle + all.skip(k + 1) =~= middle);
    }
    if k > 0 {
        law_joined_falls_apart(all.take(k), middle + all.skip(k + 1), separator@);
    } else {
        assert(all =~= middle + all.skip(1));
    }
    let before = if k == 0 {
        Seq::empty()
    } else {
        crate::text::joined(all.take(k), separator@) + separator@
    };
    let behind = if k == parts@.len() - 1 {
        Seq::empty()
    } else {
        separator@ + crate::text::joined(all.skip(k + 1), separator@)
    };
    assert(r@ =~= before + parts@[k]@ + behind);
}

/// The number that a text of decimal digits stands for.
pub open spec fn decimal_value(text: Seq<char>) -> int
    decreases text.len(),
{
    if text.len() == 0 {
        0
    } else {
        10 * decimal_value(text.drop_last()) + (text.last() as int - '0' as int)
    }
}

proof fn lemma_digits(n: nat)
    ensures
        crate::text::digits(n).len() > 0,
        decimal_value(crate::text::digits(n)) == n,
        forall|i: int| 0 <= i < crate::text::digits(n).len() ==> '0' <= #[trigger] crate::text::digits(n)[i] <= '9',
        n > 0 ==> crate::text::digits(n)[0] != '0',
        n == 0 ==> crate::text::digits(n).len() == 1,
    decreases n,
{
    let last = (n % 10) as nat;
    assert(crate::text::digit(last) as int == '0' as int + last);
    if n < 10 {
        assert(crate::text::digits(n) =~= seq![crate::text::digit(n)]);
        assert(crate::text::digits(n).drop_last() =~= Seq::<char>::empty());
        assert(decimal_value(Seq::<char>::empty()) == 0);
    } else {
        lemma_digits(n / 10);
        assert(crate::text::digits(n).drop_last() =~= crate::text::digits(n / 10));
        assert(crate::text::digits(n)[0] == crate::text::digits(n / 10)[0]);
        assert forall|i: int| 0 <= i < crate::text::digits(n).len() implies '0' <= #[trigger] crate::text::digits(n)[i]
            <= '9' by {
            if i < crate::text::digits(n / 10).len() {
                assert(crate::text::digits(n)[i] == crate::text::digits(n / 10)[i]);
            }
        }
    }
}

/// A written number reads back as the number: it is made of digits alone and has no
/// leading zero.
pub proof fn law_format_digits(n: u64, r: String)
    requires
        call_ensures(crate::text::format_digits, (n,), r),
    ensures
        decimal_value(r@) == n,
        forall|i: int| 0 <= i < r@.len() ==> '0' <= #[trigger] r@[i] <= '9',
        r@.len() > 0,
        r@.len() > 1 ==> r@[0] != '0',
{
    lemma_digits(n as nat);
}

/// A written number reads back as the number: a minus sign stands before a negative one
/// and nowhere else, and what is left are digits without a leading zero.
pub proof fn law_format_decimal(n: i64, r: String)
    requires
        call_ensures(crate::text::format_decimal, (n,), r),
    ensures
        n >= 0 ==> decimal_value(r@) == n,
        n >= 0 ==> forall|i: int| 0 <= i < r@.len() ==> '0' <= #[trigger] r@[i] <= '9',
        n < 0 ==> r@.len() > 1 && r@[0] == '-' && r@[1] != '0' && decimal_value(r@.skip(1)) == -n,
        n < 0 ==> forall|i: int| 1 <= i < r@.len() ==> '0' <= #[trigger] r@[i] <= '9',
        r@.len() > 0,
        r@.len() > 1 ==> r@[0] != '0',
{
    if n >= 0 {
        lemma_digits(n as nat);
    } else {
        let magnitude = (-n) as nat;
        lemma_digits(magnitude);
        assert(r@.skip(1) =~= crate::text::digits(magnitude));
        assert forall|i: int| 1 <= i < r@.len() implies '0' <= #[trigger] r@[i] <= '9' by {
            assert(r@[i] == crate::text::digits(magnitude)[i - 1]);
        }
    }
}

} // verus!
