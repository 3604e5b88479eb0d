//! What trimming, splitting, searching and reading numbers do to texts put together from parts.
use vstd::prelude::*;

use crate::text::{
    ascii_lower, ascii_upper, contains, decimal, decimal_value, ends_with, find, in_class,
    is_digit, is_whitespace, lines, occurs_at, slices, split_once, starts_with, texts, trim,
    trim_end, trim_start, word_len, words, CharClass,
};

verus! {

/// Whether every character of `s` is of `class`.
pub open spec fn all_in(s: Seq<char>, class: CharClass) -> bool {
    forall|i: int| 0 <= i < s.len() ==> in_class(class, #[trigger] s[i])
}

/// A class of one character holds that character alone.
pub proof fn law_classes(x: char, c: char)
    ensures
        in_class(CharClass::Exactly(x), c) <==> c == x,
        in_class(CharClass::Whitespace, c) <==> is_whitespace(c),
{
}

/// White space is the characters of the Unicode property, by their code points.
pub proof fn law_white_space(c: char)
    ensures
        is_whitespace(c) <==> {
            ||| 9 <= c as int <= 13
            ||| c as int == 32
            ||| c as int == 133
            ||| c as int == 160
            ||| c as int == 5760
            ||| 8192 <= c as int <= 8202
            ||| c as int == 8232
            ||| c as int == 8233
            ||| c as int == 8239
            ||| c as int == 8287
            ||| c as int == 12288
        },
{
}

/// Trimming the start removes all of a leading run, and nothing after it.
pub proof fn law_trim_start_removes_the_leading_run(a: Seq<char>, s: Seq<char>, class: CharClass)
    requires
        all_in(a, class),
        s.len() > 0 ==> !in_class(class, s[0]),
    ensures
        trim_start(a + s, class) == s,
    decreases a.len(),
{
    if a.len() == 0 {
        assert(a + s =~= s);
    } else {
        assert((a + s)[0] == a[0]);
        assert((a + s).skip(1) =~= a.skip(1) + s);
        assert(all_in(a.skip(1), class)) by {
            assert forall|i: int| 0 <= i < a.skip(1).len() implies in_class(
                class,
                #[trigger] a.skip(1)[i],
            ) by {
                assert(a.skip(1)[i] == a[i + 1]);
            }
        }
        law_trim_start_removes_the_leading_run(a.skip(1), s, class);
    }
}

/// Trimming the end removes all of a trailing run, and nothing before it.
pub proof fn law_trim_end_removes_the_trailing_run(s: Seq<char>, b: Seq<char>, class: CharClass)
    requires
        all_in(b, class),
        s.len() > 0 ==> !in_class(class, s.last()),
    ensures
        trim_end(s + b, class) == s,
    decreases b.len(),
{
    if b.len() == 0 {
        assert(s + b =~= s);
    } else {
        assert((s + b).last() == b.last());
        assert((s + b).drop_last() =~= s + b.drop_last());
        assert(b.last() == b[b.len() - 1]);
        law_trim_end_removes_the_trailing_run(s, b.drop_last(), class);
    }
}

/// Trimming removes exactly the runs at both ends.
pub proof fn law_trim_removes_both_runs(
    a: Seq<char>,
    s: Seq<char>,
    b: Seq<char>,
    class: CharClass,
)
    requires
        all_in(a, class),
        all_in(b, class),
        s.len() > 0 ==> !in_class(class, s[0]) && !in_class(class, s.last()),
    ensures
        trim(a + s + b, class) == s,
{
    if s.len() > 0 {
        assert(a + s + b =~= a + (s + b));
        assert((s + b)[0] == s[0]);
        law_trim_start_removes_the_leading_run(a, s + b, class);
        law_trim_end_removes_the_trailing_run(s, b, class);
    } else {
        let all = a + s + b;
        assert(all =~= a + b);
        assert(all_in(all, class));
        assert(all =~= all + Seq::<char>::empty());
        law_trim_start_removes_the_leading_run(all, Seq::empty(), class);
    }
}

proof fn lemma_find_first(a: Seq<char>, c: char, b: Seq<char>)
    requires
        !a.contains(c),
    ensures
        find(a, c) == a.len(),
        find(a.push(c) + b, c) == a.len(),
    decreases a.len(),
{
    let s = a.push(c) + b;
    if a.len() > 0 {
        assert(a.contains(a[0]));
        assert(s[0] == a[0]);
        assert(s.skip(1) =~= a.skip(1).push(c) + b);
        assert forall|x: char| a.skip(1).contains(x) implies a.contains(x) by {
            let i = choose|i: int| 0 <= i < a.skip(1).len() && a.skip(1)[i] == x;
            assert(a[i + 1] == x);
        }
        lemma_find_first(a.skip(1), c, b);
    } else {
        assert(s[0] == c);
    }
}

/// A text is split at the first separator, of which nothing is kept.
pub proof fn law_split_at_the_first_separator(a: Seq<char>, c: char, b: Seq<char>)
    requires
        !a.contains(c),
    ensures
        split_once(a.push(c) + b, c) == Some((a, b)),
        split_once(a, c) is None,
{
    lemma_find_first(a, c, b);
    let s = a.push(c) + b;
    assert(s.take(a.len() as int) =~= a);
    assert(s.skip(a.len() as int + 1) =~= b);
}

/// A line ends at the first line feed; a carriage return before it is no part of the line.
pub proof fn law_lines_end_at_line_feeds(a: Seq<char>, rest: Seq<char>)
    requires
        !a.contains('\n'),
    ensures
        lines(Seq::empty()) == Seq::<Seq<char>>::empty(),
        a.len() > 0 ==> lines(a) == seq![a],
        a.len() == 0 || a.last() != '\r' ==> lines(a.push('\n') + rest) == seq![a] + lines(rest),
        lines(a.push('\r').push('\n') + rest) == seq![a] + lines(rest),
{
    lemma_find_first(a, '\n', rest);
    let s = a.push('\n') + rest;
    assert(s.take(a.len() as int) =~= a);
    assert(s.skip(a.len() as int + 1) =~= rest);
    let b = a.push('\r');
    assert(!b.contains('\n')) by {
        if b.contains('\n') {
            let i = choose|i: int| 0 <= i < b.len() && b[i] == '\n';
            assert(i < a.len() ==> a[i] == '\n');
        }
    }
    lemma_find_first(b, '\n', rest);
    let t = b.push('\n') + rest;
    assert(t.take(b.len() as int) =~= b);
    assert(t.skip(b.len() as int + 1) =~= rest);
    assert(b.drop_last() =~= a);
}

proof fn lemma_word_len_of_word(w: Seq<char>, rest: Seq<char>)
    requires
        forall|i: int| 0 <= i < w.len() ==> !is_whitespace(#[trigger] w[i]),
        rest.len() > 0 ==> is_whitespace(rest[0]),
    ensures
        word_len(w + rest) == w.len(),
    decreases w.len(),
{
    let s = w + rest;
    if w.len() > 0 {
        assert(s[0] == w[0]);
        assert(s.skip(1) =~= w.skip(1) + rest);
        assert forall|i: int| 0 <= i < w.skip(1).len() implies !is_whitespace(
            #[trigger] w.skip(1)[i],
        ) by {
            assert(w.skip(1)[i] == w[i + 1]);
        }
        lemma_word_len_of_word(w.skip(1), rest);
    } else {
        assert(s =~= rest);
    }
}

/// A word is a maximal run without white space: leading white space is skipped, the first word
/// ends where white space follows or the text ends, and the rest gives the further words.
pub proof fn law_words_are_runs_between_white_space(a: Seq<char>, w: Seq<char>, rest: Seq<char>)
    requires
        all_in(a, CharClass::Whitespace),
        w.len() > 0,
        forall|i: int| 0 <= i < w.len() ==> !is_whitespace(#[trigger] w[i]),
        rest.len() > 0 ==> is_whitespace(rest[0]),
    ensures
        words(a) == Seq::<Seq<char>>::empty(),
        words(a + w + rest) == seq![w] + words(rest),
{
    assert(a + Seq::<char>::empty() =~= a);
    law_trim_start_removes_the_leading_run(a, Seq::empty(), CharClass::Whitespace);
    assert(a + w + rest =~= a + (w + rest));
    assert((w + rest)[0] == w[0]);
    law_trim_start_removes_the_leading_run(a, w + rest, CharClass::Whitespace);
    lemma_word_len_of_word(w, rest);
    assert((w + rest).take(w.len() as int) =~= w);
    assert((w + rest).skip(w.len() as int) =~= rest);
}

/// Digits are read by position, each worth ten times what follows it.
pub proof fn law_digits_are_positional(digits: Seq<char>, d: char)
    requires
        '0' <= d <= '9',
    ensures
        decimal_value(Seq::empty()) == 0,
        decimal_value(digits.push(d)) == 10 * decimal_value(digits) + (d as int - 48),
{
    assert(digits.push(d).drop_last() =~= digits);
}

/// A number is one or more digits, after at most one plus sign, and nothing else; one above the
/// bound is refused.
pub proof fn law_numbers_are_digits_within_a_bound(digits: Seq<char>, s: Seq<char>, max: nat)
    requires
        digits.len() > 0,
        forall|i: int| 0 <= i < digits.len() ==> '0' <= #[trigger] digits[i] <= '9',
    ensures
        decimal(digits, max) == (if decimal_value(digits) <= max {
            Some(decimal_value(digits))
        } else {
            None
        }),
        decimal(seq!['+'] + digits, max) == decimal(digits, max),
        decimal(s, max) is Some ==> s.len() > 0,
        decimal(s, max) is Some ==> if s[0] == '+' {
            s.len() > 1 && forall|i: int| 1 <= i < s.len() ==> '0' <= #[trigger] s[i] <= '9'
        } else {
            forall|i: int| 0 <= i < s.len() ==> '0' <= #[trigger] s[i] <= '9'
        },
{
    assert(digits[0] != '+');
    assert((seq!['+'] + digits).skip(1) =~= digits);
    assert forall|i: int| 0 <= i < digits.len() implies is_digit(#[trigger] digits[i]) by {}
    if decimal(s, max) is Some && s[0] == '+' {
        assert forall|i: int| 1 <= i < s.len() implies '0' <= #[trigger] s[i] <= '9' by {
            assert(s.skip(1)[i - 1] == s[i]);
        }
    }
}

/// A text begins with, ends with and contains what it was put together from, and nothing that it
/// could not have been put together from.
pub proof fn law_search(a: Seq<char>, p: Seq<char>, b: Seq<char>, s: Seq<char>)
    ensures
        starts_with(p + b, p),
        ends_with(a + p, p),
        contains(a + p + b, p),
        starts_with(s, p) ==> exists|rest: Seq<char>| s == p + rest,
        ends_with(s, p) ==> exists|rest: Seq<char>| s == rest + p,
        contains(s, p) ==> exists|x: Seq<char>, y: Seq<char>| s == #[trigger] ((x + p) + y),
{
    assert((p + b).take(p.len() as int) =~= p);
    assert((a + p).skip(a.len() as int) =~= p);
    let whole = a + p + b;
    assert(whole.subrange(a.len() as int, a.len() as int + p.len()) =~= p);
    assert(occurs_at(whole, p, a.len() as int));
    if starts_with(s, p) {
        assert(s =~= p + s.skip(p.len() as int));
    }
    if ends_with(s, p) {
        assert(s =~= s.take(s.len() - p.len()) + p);
    }
    if contains(s, p) {
        let at = choose|at: int| occurs_at(s, p, at);
        let x = s.take(at);
        let y = s.skip(at + p.len());
        assert(s =~= (x + p) + y);
    }
}

/// Case changes ASCII letters alone, and lower case undoes upper case on a lower-case letter.
pub proof fn law_ascii_case(c: char)
    ensures
        97 <= c as int <= 122 ==> ascii_upper(c) as int == c as int - 32,
        !(97 <= c as int <= 122) ==> ascii_upper(c) == c,
        65 <= c as int <= 90 ==> ascii_lower(c) as int == c as int + 32,
        !(65 <= c as int <= 90) ==> ascii_lower(c) == c,
{
}

/// Lists of strings stand for the texts of their members, one for one.
pub proof fn law_lists_keep_their_members(strings: Seq<String>, parts: Seq<&str>, i: int)
    ensures
        texts(strings).len() == strings.len(),
        slices(parts).len() == parts.len(),
        0 <= i < strings.len() ==> texts(strings)[i] == strings[i]@,
        0 <= i < parts.len() ==> slices(parts)[i] == parts[i]@,
{
}

} // verus!
