//! Text primitives over characters: trimming, splitting, searching and decimal numbers.
//!
//! Every executable function here is matched by a specification over `Seq<char>`; the other
//! modules state their contracts in terms of those specifications.
use vstd::prelude::*;

verus! {

/// A set of characters that trimming removes.
#[derive(Clone, Copy)]
pub enum CharClass {
    /// Unicode white space.
    Whitespace,
    /// One particular character.
    Exactly(char),
}

/// The Unicode `White_Space` property.
pub open spec fn is_whitespace(c: char) -> bool {
    ||| '\u{9}' <= c <= '\u{d}'
    ||| c == ' '
    ||| c == '\u{85}'
    ||| c == '\u{a0}'
    ||| c == '\u{1680}'
    ||| '\u{2000}' <= c <= '\u{200a}'
    ||| c == '\u{2028}'
    ||| c == '\u{2029}'
    ||| c == '\u{202f}'
    ||| c == '\u{205f}'
    ||| c == '\u{3000}'
}

pub open spec fn in_class(class: CharClass, c: char) -> bool {
    match class {
        CharClass::Whitespace => is_whitespace(c),
        CharClass::Exactly(x) => c == x,
    }
}

/// `s` without its leading characters of `class`.
pub open spec fn trim_start(s: Seq<char>, class: CharClass) -> Seq<char>
    decreases s.len(),
{
    if s.len() > 0 && in_class(class, s[0]) {
        trim_start(s.skip(1), class)
    } else {
        s
    }
}

/// `s` without its trailing characters of `class`.
pub open spec fn trim_end(s: Seq<char>, class: CharClass) -> Seq<char>
    decreases s.len(),
{
    if s.len() > 0 && in_class(class, s.last()) {
        trim_end(s.drop_last(), class)
    } else {
        s
    }
}

/// `s` without leading or trailing characters of `class`.
pub open spec fn trim(s: Seq<char>, class: CharClass) -> Seq<char> {
    trim_end(trim_start(s, class), class)
}

/// Position of the first `c` in `s`, or the length of `s` where there is none.
pub open spec fn find(s: Seq<char>, c: char) -> int
    decreases s.len(),
{
    if s.len() == 0 || s[0] == c {
        0
    } else {
        1 + find(s.skip(1), c)
    }
}

/// The parts of `s` before and after the first `c`, if there is one.
pub open spec fn split_once(s: Seq<char>, c: char) -> Option<(Seq<char>, Seq<char>)> {
    let i = find(s, c);
    if i < s.len() {
        Some((s.take(i), s.skip(i + 1)))
    } else {
        None
    }
}

/// `line` without one trailing carriage return.
pub open spec fn strip_cr(line: Seq<char>) -> Seq<char> {
    if line.len() > 0 && line.last() == '\r' {
        line.drop_last()
    } else {
        line
    }
}

/// The lines of `s`: each ends at a line feed, with a carriage return before the line feed
/// dropped; text after the last line feed is a line of its own unless it is empty.
pub open spec fn lines(s: Seq<char>) -> Seq<Seq<char>>
    decreases s.len(),
{
    let i = find(s, '\n');
    if s.len() == 0 {
        Seq::empty()
    } else if i < s.len() {
        proof {
            lemma_find_bounds(s, '\n');
        }
        seq![strip_cr(s.take(i))] + lines(s.skip(i + 1))
    } else {
        seq![s]
    }
}

/// Length of the longest prefix of `s` without white space.
pub open spec fn word_len(s: Seq<char>) -> int
    decreases s.len(),
{
    if s.len() == 0 || is_whitespace(s[0]) {
        0
    } else {
        1 + word_len(s.skip(1))
    }
}

/// The words of `s`: its maximal runs of characters that are not white space.
pub open spec fn words(s: Seq<char>) -> Seq<Seq<char>>
    decreases s.len(),
{
    let t = trim_start(s, CharClass::Whitespace);
    if t.len() == 0 {
        Seq::empty()
    } else {
        proof {
            lemma_trim_start_len(s, CharClass::Whitespace);
            lemma_trim_start_head(s, CharClass::Whitespace);
            lemma_word_len_bounds(t);
        }
        seq![t.take(word_len(t))] + words(t.skip(word_len(t)))
    }
}

pub open spec fn is_digit(c: char) -> bool {
    '0' <= c <= '9'
}

/// The number that a string of decimal digits denotes.
pub open spec fn decimal_value(digits: Seq<char>) -> nat
    decreases digits.len(),
{
    if digits.len() == 0 {
        0
    } else {
        decimal_value(digits.drop_last()) * 10 + ((digits.last() as int - '0' as int) as nat)
    }
}

/// The digits of an unsigned decimal number: one leading plus sign is allowed.
pub open spec fn unsigned_digits(s: Seq<char>) -> Seq<char> {
    if s.len() > 0 && s[0] == '+' {
        s.skip(1)
    } else {
        s
    }
}

/// The unsigned decimal number that `s` denotes, if it is one and is at most `max`.
pub open spec fn decimal(s: Seq<char>, max: nat) -> Option<nat> {
    let digits = unsigned_digits(s);
    if digits.len() > 0 && (forall|i: int| 0 <= i < digits.len() ==> is_digit(digits[i]))
        && decimal_value(digits) <= max {
        Some(decimal_value(digits))
    } else {
        None
    }
}

/// `c` with an ASCII letter made upper case.
pub open spec fn ascii_upper(c: char) -> char {
    if 'a' <= c <= 'z' {
        (c as int - 32) as char
    } else {
        c
    }
}

/// `c` with an ASCII letter made lower case.
pub open spec fn ascii_lower(c: char) -> char {
    if 'A' <= c <= 'Z' {
        (c as int + 32) as char
    } else {
        c
    }
}

pub open spec fn all_ascii(s: Seq<char>) -> bool {
    forall|i: int| 0 <= i < s.len() ==> s[i] <= '\u{7f}'
}

/// `s` in upper case, by the Unicode mapping that `str::to_uppercase` applies.
pub uninterp spec fn uppercase(s: Seq<char>) -> Seq<char>;

/// `s` in lower case, by the Unicode mapping that `str::to_lowercase` applies.
pub uninterp spec fn lowercase(s: Seq<char>) -> Seq<char>;

/// `str::to_uppercase` depends on the text alone. On text that is all ASCII it maps letter by
/// letter; the mapping of other characters, some of which become several, is left to its name.
pub assume_specification[ str::to_uppercase ](s: &str) -> (r: String)
    ensures
        r@ == uppercase(s@),
        all_ascii(s@) ==> r@ == s@.map_values(|c: char| ascii_upper(c)),
;

/// `str::to_lowercase` depends on the text alone. On text that is all ASCII it maps letter by
/// letter; the mapping of other characters is left to its name.
pub assume_specification[ str::to_lowercase ](s: &str) -> (r: String)
    ensures
        r@ == lowercase(s@),
        all_ascii(s@) ==> r@ == s@.map_values(|c: char| ascii_lower(c)),
;

pub open spec fn starts_with(s: Seq<char>, prefix: Seq<char>) -> bool {
    s.len() >= prefix.len() && s.take(prefix.len() as int) == prefix
}

pub open spec fn ends_with(s: Seq<char>, suffix: Seq<char>) -> bool {
    s.len() >= suffix.len() && s.skip(s.len() - suffix.len()) == suffix
}

/// Whether `pattern` stands in `s` at position `at`.
pub open spec fn occurs_at(s: Seq<char>, pattern: Seq<char>, at: int) -> bool {
    0 <= at && at + pattern.len() <= s.len() && s.subrange(at, at + pattern.len()) == pattern
}

pub open spec fn contains(s: Seq<char>, pattern: Seq<char>) -> bool {
    exists|at: int| occurs_at(s, pattern, at)
}

/// The texts of a list of strings.
pub open spec fn texts(list: Seq<String>) -> Seq<Seq<char>> {
    list.map_values(|s: String| s@)
}

/// The texts of a list of string slices.
pub open spec fn slices(list: Seq<&str>) -> Seq<Seq<char>> {
    list.map_values(|s: &str| s@)
}

pub proof fn lemma_trim_start_len(s: Seq<char>, class: CharClass)
    ensures
        trim_start(s, class).len() <= s.len(),
    decreases s.len(),
{
    if s.len() > 0 && in_class(class, s[0]) {
        lemma_trim_start_len(s.skip(1), class);
    }
}

pub proof fn lemma_find_bounds(s: Seq<char>, c: char)
    ensures
        0 <= find(s, c) <= s.len(),
    decreases s.len(),
{
    if s.len() > 0 && s[0] != c {
        lemma_find_bounds(s.skip(1), c);
    }
}

pub proof fn lemma_word_len_bounds(s: Seq<char>)
    ensures
        0 <= word_len(s) <= s.len(),
        s.len() > 0 && !is_whitespace(s[0]) ==> word_len(s) > 0,
    decreases s.len(),
{
    if s.len() > 0 && !is_whitespace(s[0]) {
        lemma_word_len_bounds(s.skip(1));
    }
}

/// What trimming leaves does not begin with a character that it removes.
pub proof fn lemma_trim_start_head(s: Seq<char>, class: CharClass)
    ensures
        trim_start(s, class).len() > 0 ==> !in_class(class, trim_start(s, class)[0]),
    decreases s.len(),
{
    if s.len() > 0 && in_class(class, s[0]) {
        lemma_trim_start_head(s.skip(1), class);
    }
}

/// A number is never smaller than the number that its leading digits denote.
proof fn lemma_decimal_value_prefix(digits: Seq<char>, n: int)
    requires
        0 <= n <= digits.len(),
        forall|i: int| 0 <= i < digits.len() ==> is_digit(digits[i]),
    ensures
        decimal_value(digits.take(n)) <= decimal_value(digits),
    decreases digits.len() - n,
{
    if n < digits.len() {
        lemma_decimal_value_prefix(digits, n + 1);
        assert(digits.take(n + 1).drop_last() =~= digits.take(n));
    } else {
        assert(digits.take(n) =~= digits);
    }
}

/// The characters of `text`, in order.
pub fn chars_of(text: &str) -> (out: Vec<char>)
    ensures
        out@ == text@,
{
    let mut out: Vec<char> = Vec::new();
    for c in it: text.chars()
        invariant
            out@ == it.seq().take(it.index() as int),
            it.seq() == text@,
    {
        out.push(c);
    }
    out
}

/// Whether two texts are the same.
pub fn text_eq(a: &str, b: &str) -> (r: bool)
    ensures
        r == (a@ == b@),
{
    let x = chars_of(a);
    let y = chars_of(b);
    if x.len() != y.len() {
        return false;
    }
    let mut i: usize = 0;
    while i < x.len()
        invariant
            i <= x.len(),
            x.len() == y.len(),
            x@ == a@,
            y@ == b@,
            forall|j: int| 0 <= j < i ==> x@[j] == y@[j],
        decreases x.len() - i,
    {
        if x[i] != y[i] {
            return false;
        }
        i += 1;
    }
    assert(x@ =~= y@);
    true
}

/// Whether `c` is Unicode white space.
pub fn whitespace(c: char) -> (r: bool)
    ensures
        r == is_whitespace(c),
{
    ('\u{9}' <= c && c <= '\u{d}') || c == ' ' || c == '\u{85}' || c == '\u{a0}' || c
        == '\u{1680}' || ('\u{2000}' <= c && c <= '\u{200a}') || c == '\u{2028}' || c == '\u{2029}'
        || c == '\u{202f}' || c == '\u{205f}' || c == '\u{3000}'
}

fn class_contains(class: CharClass, c: char) -> (r: bool)
    ensures
        r == in_class(class, c),
{
    match class {
        CharClass::Whitespace => whitespace(c),
        CharClass::Exactly(x) => c == x,
    }
}

/// `text` without its leading characters of `class`.
pub fn trimmed_start(text: &str, class: CharClass) -> (r: &str)
    ensures
        r@ == trim_start(text@, class),
{
    let chars = chars_of(text);
    let mut i: usize = 0;
    assert(text@.skip(0) =~= text@);
    while i < chars.len() && class_contains(class, chars[i])
        invariant
            i <= chars.len(),
            chars@ == text@,
            trim_start(text@, class) == trim_start(text@.skip(i as int), class),
        decreases chars.len() - i,
    {
        assert(text@.skip(i as int).skip(1) =~= text@.skip(i + 1));
        i += 1;
    }
    assert(text@.subrange(i as int, text@.len() as int) =~= text@.skip(i as int));
    text.substring_char(i, chars.len())
}

/// `text` without its trailing characters of `class`.
pub fn trimmed_end(text: &str, class: CharClass) -> (r: &str)
    ensures
        r@ == trim_end(text@, class),
{
    let chars = chars_of(text);
    let mut n: usize = chars.len();
    assert(text@.take(n as int) =~= text@);
    while n > 0 && class_contains(class, chars[n - 1])
        invariant
            n <= chars.len(),
            chars@ == text@,
            trim_end(text@, class) == trim_end(text@.take(n as int), class),
        decreases n,
    {
        assert(text@.take(n as int).drop_last() =~= text@.take(n - 1));
        n -= 1;
    }
    assert(text@.subrange(0, n as int) =~= text@.take(n as int));
    text.substring_char(0, n)
}

/// `text` without leading or trailing characters of `class`.
pub fn trimmed(text: &str, class: CharClass) -> (r: &str)
    ensures
        r@ == trim(text@, class),
{
    trimmed_end(trimmed_start(text, class), class)
}

/// Position of the first `c` at or after `from`, or the number of characters.
fn find_from(chars: &Vec<char>, from: usize, c: char) -> (at: usize)
    requires
        from <= chars.len(),
    ensures
        from <= at <= chars.len(),
        at == from + find(chars@.skip(from as int), c),
{
    let mut i: usize = from;
    while i < chars.len() && chars[i] != c
        invariant
            from <= i <= chars.len(),
            from + find(chars@.skip(from as int), c) == i + find(chars@.skip(i as int), c),
        decreases chars.len() - i,
    {
        assert(chars@.skip(i as int).skip(1) =~= chars@.skip(i + 1));
        i += 1;
    }
    i
}

/// The parts of `text` before and after the first `c`, if there is one.
pub fn split_at_first(text: &str, c: char) -> (r: Option<(&str, &str)>)
    ensures
        match r {
            Some((before, after)) => split_once(text@, c) == Some((before@, after@)),
            None => split_once(text@, c) is None,
        },
{
    let chars = chars_of(text);
    let i = find_from(&chars, 0, c);
    assert(chars@.skip(0) =~= text@);
    if i < chars.len() {
        let before = text.substring_char(0, i);
        let after = text.substring_char(i + 1, chars.len());
        assert(before@ =~= text@.take(i as int));
        assert(after@ =~= text@.skip(i + 1));
        Some((before, after))
    } else {
        None
    }
}

/// The lines of `text`.
pub fn lines_of<'a>(text: &'a str) -> (out: Vec<&'a str>)
    ensures
        slices(out@) == lines(text@),
{
    let chars = chars_of(text);
    let mut out: Vec<&'a str> = Vec::new();
    let mut pos: usize = 0;
    assert(text@.skip(0) =~= text@);
    assert(slices(out@) + lines(text@) =~= lines(text@));
    while pos < chars.len()
        invariant
            pos <= chars.len(),
            chars@ == text@,
            slices(out@) + lines(text@.skip(pos as int)) == lines(text@),
        decreases chars.len() - pos,
    {
        let ghost rest = text@.skip(pos as int);
        let ghost before = slices(out@);
        let end = find_from(&chars, pos, '\n');
        if end < chars.len() {
            let stop: usize = if end > pos && chars[end - 1] == '\r' {
                end - 1
            } else {
                end
            };
            let line = text.substring_char(pos, stop);
            assert(line@ =~= strip_cr(rest.take(end - pos)));
            out.push(line);
            assert(slices(out@) =~= before.push(line@));
            assert(rest.skip(end - pos + 1) =~= text@.skip(end + 1));
            assert(before + (seq![line@] + lines(text@.skip(end + 1))) =~= before.push(line@)
                + lines(text@.skip(end + 1)));
            pos = end + 1;
        } else {
            let line = text.substring_char(pos, chars.len());
            assert(line@ =~= rest);
            out.push(line);
            assert(slices(out@) =~= before.push(line@));
            pos = chars.len();
            assert(text@.skip(pos as int) =~= Seq::<char>::empty());
            assert(lines(text@.skip(pos as int)) =~= Seq::<Seq<char>>::empty());
            assert(before + seq![line@] =~= before.push(line@) + Seq::<Seq<char>>::empty());
        }
    }
    assert(lines(text@.skip(pos as int)) =~= Seq::<Seq<char>>::empty());
    assert(slices(out@) + Seq::<Seq<char>>::empty() =~= slices(out@));
    out
}

/// The words of `text`.
pub fn words_of<'a>(text: &'a str) -> (out: Vec<&'a str>)
    ensures
        slices(out@) == words(text@),
{
    let chars = chars_of(text);
    let mut out: Vec<&'a str> = Vec::new();
    let mut pos: usize = 0;
    assert(text@.skip(0) =~= text@);
    assert(slices(out@) + words(text@) =~= words(text@));
    loop
        invariant
            pos <= chars.len(),
            chars@ == text@,
            slices(out@) + words(text@.skip(pos as int)) == words(text@),
        ensures
            slices(out@) == words(text@),
        decreases chars.len() - pos,
    {
        let ghost rest = text@.skip(pos as int);
        let ghost before = slices(out@);
        let mut i: usize = pos;
        while i < chars.len() && whitespace(chars[i])
            invariant
                pos <= i <= chars.len(),
                chars@ == text@,
                rest == text@.skip(pos as int),
                trim_start(rest, CharClass::Whitespace) == trim_start(
                    text@.skip(i as int),
                    CharClass::Whitespace,
                ),
            decreases chars.len() - i,
        {
            assert(text@.skip(i as int).skip(1) =~= text@.skip(i + 1));
            i += 1;
        }
        let ghost t = text@.skip(i as int);
        assert(t == trim_start(rest, CharClass::Whitespace));
        if i >= chars.len() {
            assert(words(rest) =~= Seq::<Seq<char>>::empty());
            assert(before + words(rest) =~= before);
            break;
        }
        let mut j: usize = i;
        while j < chars.len() && !whitespace(chars[j])
            invariant
                i <= j <= chars.len(),
                chars@ == text@,
                t == text@.skip(i as int),
                word_len(t) == (j - i) + word_len(text@.skip(j as int)),
            decreases chars.len() - j,
        {
            assert(text@.skip(j as int).skip(1) =~= text@.skip(j + 1));
            j += 1;
        }
        assert(word_len(text@.skip(j as int)) == 0);
        proof {
            lemma_word_len_bounds(t);
        }
        let word = text.substring_char(i, j);
        assert(word@ =~= t.take(j - i));
        out.push(word);
        assert(slices(out@) =~= before.push(word@));
        assert(t.skip(j - i) =~= text@.skip(j as int));
        assert(before + (seq![word@] + words(text@.skip(j as int))) =~= before.push(word@) + words(
            text@.skip(j as int),
        ));
        pos = j;
    }
    out
}

/// The unsigned decimal number that `text` denotes, if it is one and is at most `max`.
pub fn parse_decimal(text: &str, max: u64) -> (r: Option<u64>)
    ensures
        match r {
            Some(n) => decimal(text@, max as nat) == Some(n as nat),
            None => decimal(text@, max as nat) is None,
        },
{
    let chars = chars_of(text);
    let start: usize = if chars.len() > 0 && chars[0] == '+' {
        1
    } else {
        0
    };
    let ghost digits = unsigned_digits(text@);
    assert(digits =~= text@.skip(start as int));
    if start == chars.len() {
        return None;
    }
    let mut value: u64 = 0;
    let mut i: usize = start;
    assert(digits.take(0) =~= Seq::<char>::empty());
    while i < chars.len()
        invariant
            start <= i <= chars.len(),
            chars@ == text@,
            digits == unsigned_digits(text@),
            digits == text@.skip(start as int),
            forall|k: int| 0 <= k < i - start ==> is_digit(digits[k]),
            value == decimal_value(digits.take(i - start)),
            value <= max,
        decreases chars.len() - i,
    {
        let c = chars[i];
        assert(c == digits[i - start]);
        if c < '0' || c > '9' {
            return None;
        }
        let d: u64 = c as u64 - '0' as u64;
        assert(digits.take(i - start + 1).drop_last() =~= digits.take(i - start));
        let wide: u128 = value as u128 * 10 + d as u128;
        assert(wide == decimal_value(digits.take(i - start + 1)));
        if wide > max as u128 {
            proof {
                if forall|k: int| 0 <= k < digits.len() ==> is_digit(digits[k]) {
                    lemma_decimal_value_prefix(digits, i - start + 1);
                }
            }
            return None;
        }
        value = wide as u64;
        i += 1;
    }
    assert(digits.take(i - start) =~= digits);
    Some(value)
}

/// Whether `text` begins with `prefix`.
pub fn has_prefix(text: &str, prefix: &str) -> (r: bool)
    ensures
        r == starts_with(text@, prefix@),
{
    let s = chars_of(text);
    let p = chars_of(prefix);
    if s.len() < p.len() {
        return false;
    }
    let head = text.substring_char(0, p.len());
    assert(head@ =~= text@.take(p@.len() as int));
    text_eq(head, prefix)
}

/// Whether `text` ends with `suffix`.
pub fn has_suffix(text: &str, suffix: &str) -> (r: bool)
    ensures
        r == ends_with(text@, suffix@),
{
    let s = chars_of(text);
    let p = chars_of(suffix);
    if s.len() < p.len() {
        return false;
    }
    let tail = text.substring_char(s.len() - p.len(), s.len());
    assert(tail@ =~= text@.skip(s@.len() - p@.len()));
    text_eq(tail, suffix)
}

/// Whether `pattern` occurs anywhere in `text`.
pub fn has_substring(text: &str, pattern: &str) -> (r: bool)
    ensures
        r == contains(text@, pattern@),
{
    let s = chars_of(text);
    let p = chars_of(pattern);
    if s.len() < p.len() {
        assert(forall|at: int| !occurs_at(text@, pattern@, at));
        return false;
    }
    let last: usize = s.len() - p.len();
    let mut at: usize = 0;
    loop
        invariant
            at <= last,
            last == s.len() - p.len(),
            s@ == text@,
            p@ == pattern@,
            forall|k: int| 0 <= k < at ==> !occurs_at(text@, pattern@, k),
        decreases last - at,
    {
        if text_eq(text.substring_char(at, at + p.len()), pattern) {
            assert(occurs_at(text@, pattern@, at as int));
            return true;
        }
        if at == last {
            assert forall|k: int| !occurs_at(text@, pattern@, k) by {}
            return false;
        }
        at += 1;
    }
}

} // verus!
