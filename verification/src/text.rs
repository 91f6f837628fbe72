//! Text: the string operations that the generated JavaScript is put together with.
//!
//! A string is modelled by its view, the sequence of its characters. Each executable function
//! here is proved against a specification function on such sequences.
use vstd::prelude::*;

verus! {

/// `String::push`: the string gains the character at its end.
pub assume_specification[ std::string::String::push ](s: &mut std::string::String, c: char)
    ensures
        final(s)@ == old(s)@.push(c),
;

/// The characters with Unicode's `White_Space` property.
pub open spec fn is_space(c: char) -> bool {
    ||| '\u{9}' <= c <= '\u{d}'
    ||| c == ' '
    ||| c == '\u{85}'
    ||| c == '\u{a0}'
    ||| c == '\u{1680}'
    ||| '\u{2000}' <= c <= '\u{200a}'
    ||| c == '\u{2028}'
    ||| c == '\u{2029}'
    ||| c == '\u{202f}'
    ||| c == '\u{205f}'
    ||| c == '\u{3000}'
}

/// `s` without the white space that it starts with.
pub open spec fn trimmed_start(s: Seq<char>) -> Seq<char>
    decreases s.len(),
{
    if s.len() > 0 && is_space(s[0]) {
        trimmed_start(s.skip(1))
    } else {
        s
    }
}

/// `s` without the white space that it ends with.
pub open spec fn trimmed_end(s: Seq<char>) -> Seq<char>
    decreases s.len(),
{
    if s.len() > 0 && is_space(s.last()) {
        trimmed_end(s.drop_last())
    } else {
        s
    }
}

/// `s` without the white space around it.
pub open spec fn trimmed(s: Seq<char>) -> Seq<char> {
    trimmed_end(trimmed_start(s))
}

/// The lines of `s`: each ends at a line feed, which is not part of it, nor is a carriage
/// return right before that line feed. After the last line feed a line follows only where there
/// is text left.
pub open spec fn lines(s: Seq<char>) -> Seq<Seq<char>>
    decreases s.len(),
{
    if s.len() == 0 {
        Seq::empty()
    } else {
        let end = line_end(s);
        if end >= s.len() {
            seq![s]
        } else {
            seq![without_return(s.take(end as int))] + lines(s.skip(end as int + 1))
        }
    }
}

/// The position of the first line feed in `s`, or the length of `s` where there is none.
pub open spec fn line_end(s: Seq<char>) -> nat
    decreases s.len(),
{
    if s.len() == 0 || s[0] == '\n' {
        0
    } else {
        1 + line_end(s.skip(1))
    }
}

/// `s` without the carriage return that it ends with, if it does.
pub open spec fn without_return(s: Seq<char>) -> Seq<char> {
    if s.len() > 0 && s.last() == '\r' {
        s.drop_last()
    } else {
        s
    }
}

/// The decimal digit of value `d`.
pub open spec fn digit(d: nat) -> char {
    ('0' as nat + d) as char
}

/// `n` in decimal, without leading zeros.
pub open spec fn decimal(n: nat) -> Seq<char>
    decreases n,
{
    if n < 10 {
        seq![digit(n)]
    } else {
        decimal(n / 10).push(digit(n % 10))
    }
}

/// `s` with every run of three or more line feeds cut down to two.
pub open spec fn squeezed(s: Seq<char>) -> Seq<char>
    decreases s.len(),
{
    if s.len() == 0 {
        s
    } else {
        let before = squeezed(s.drop_last());
        if s.last() == '\n' && seq!['\n', '\n'].is_suffix_of(before) {
            before
        } else {
            before.push(s.last())
        }
    }
}

/// The characters of `s`.
pub fn chars_of(s: &str) -> (r: Vec<char>)
    ensures
        r@ == s@,
{
    let mut r: Vec<char> = Vec::new();
    for c in it: s.chars()
        invariant
            it.seq() == s@,
            r@ == s@.take(it.index()),
    {
        r.push(c);
    }
    assert(s@.take(s@.len() as int) == s@);
    r
}

/// Whether two strings are equal.
pub fn same(a: &str, b: &str) -> (r: bool)
    ensures
        r == (a@ == b@),
{
    a.to_string() == b.to_string()
}

/// Whether `s` starts with `prefix`.
pub fn has_prefix(s: &str, prefix: &str) -> (r: bool)
    ensures
        r == prefix@.is_prefix_of(s@),
{
    let text = chars_of(s);
    let wanted = chars_of(prefix);
    if wanted.len() > text.len() {
        return false;
    }
    let mut i: usize = 0;
    while i < wanted.len()
        invariant
            text@ == s@,
            wanted@ == prefix@,
            i <= wanted.len() <= text.len(),
            forall|j: int| 0 <= j < i ==> wanted@[j] == text@[j],
        decreases wanted.len() - i,
    {
        if text[i] != wanted[i] {
            assert(s@.subrange(0, prefix@.len() as int)[i as int] != prefix@[i as int]);
            return false;
        }
        i += 1;
    }
    assert(s@.subrange(0, prefix@.len() as int) == prefix@);
    true
}

/// Whether `s` ends with `suffix`.
pub fn has_suffix(s: &str, suffix: &str) -> (r: bool)
    ensures
        r == suffix@.is_suffix_of(s@),
{
    let text = chars_of(s);
    let wanted = chars_of(suffix);
    if wanted.len() > text.len() {
        return false;
    }
    let from: usize = text.len() - wanted.len();
    let mut i: usize = 0;
    while i < wanted.len()
        invariant
            text@ == s@,
            wanted@ == suffix@,
            i <= wanted.len() <= text.len(),
            from == text.len() - wanted.len(),
            forall|j: int| 0 <= j < i ==> wanted@[j] == text@[from + j],
        decreases wanted.len() - i,
    {
        if text[from + i] != wanted[i] {
            assert(s@.subrange(from as int, s@.len() as int)[i as int] != suffix@[i as int]);
            return false;
        }
        i += 1;
    }
    assert(s@.subrange(from as int, s@.len() as int) == suffix@);
    true
}

/// Whether `c` is white space.
pub fn space(c: char) -> (r: bool)
    ensures
        r == is_space(c),
{
    ('\u{9}' <= c && c <= '\u{d}') || c == ' ' || c == '\u{85}' || c == '\u{a0}' || c == '\u{1680}'
        || ('\u{2000}' <= c && c <= '\u{200a}') || c == '\u{2028}' || c == '\u{2029}'
        || c == '\u{202f}' || c == '\u{205f}' || c == '\u{3000}'
}

/// `s` without the white space around it.
pub fn trim(s: &str) -> (r: &str)
    ensures
        r@ == trimmed(s@),
{
    let text = chars_of(s);
    let mut from: usize = 0;
    assert(s@.skip(0) == s@);
    while from < text.len() && space(text[from])
        invariant
            text@ == s@,
            from <= text.len(),
            trimmed_start(s@.skip(from as int)) == trimmed_start(s@),
        decreases text.len() - from,
    {
        assert(s@.skip(from as int).skip(1) == s@.skip(from as int + 1));
        from += 1;
    }
    let ghost rest = s@.skip(from as int);
    assert(trimmed_start(s@) == rest);
    let mut to: usize = text.len();
    assert(s@.subrange(from as int, to as int) == rest);
    while from < to && space(text[to - 1])
        invariant
            text@ == s@,
            from <= to <= text.len(),
            trimmed_end(s@.subrange(from as int, to as int)) == trimmed_end(rest),
        decreases to,
    {
        assert(s@.subrange(from as int, to as int).drop_last() == s@.subrange(
            from as int,
            to as int - 1,
        ));
        to -= 1;
    }
    s.substring_char(from, to)
}

/// `s` with every run of three or more line feeds cut down to two.
pub fn squeeze(s: &str) -> (r: String)
    ensures
        r@ == squeezed(s@),
{
    let text = chars_of(s);
    let mut r = String::new();
    // How many line feeds, two at most, `r` ends with.
    let mut feeds: usize = 0;
    let mut i: usize = 0;
    assert(s@.take(0) == Seq::<char>::empty());
    while i < text.len()
        invariant
            text@ == s@,
            i <= text.len(),
            r@ == squeezed(s@.take(i as int)),
            feeds == feeds_at_end(r@),
        decreases text.len() - i,
    {
        let c = text[i];
        assert(s@.take(i as int + 1).drop_last() == s@.take(i as int));
        proof {
            lemma_feeds_at_end(r@);
        }
        if c != '\n' {
            r.push(c);
            feeds = 0;
        } else if feeds < 2 {
            r.push(c);
            feeds += 1;
        }
        i += 1;
    }
    assert(s@.take(s@.len() as int) == s@);
    r
}

/// The lines of `s`.
pub fn split_lines(s: &str) -> (r: Vec<String>)
    ensures
        r@.map_values(|line: String| line@) == lines(s@),
{
    let text = chars_of(s);
    let mut r: Vec<String> = Vec::new();
    let mut from: usize = 0;
    assert(s@.skip(0) == s@);
    assert(r@.map_values(|line: String| line@) + lines(s@) == lines(s@));
    while from < text.len()
        invariant
            text@ == s@,
            from <= text.len(),
            r@.map_values(|line: String| line@) + lines(s@.skip(from as int)) == lines(s@),
        decreases text.len() - from,
    {
        let ghost rest = s@.skip(from as int);
        let mut to: usize = from;
        while to < text.len() && text[to] != '\n'
            invariant
                text@ == s@,
                from <= to <= text.len(),
                rest == s@.skip(from as int),
                line_end(rest) == to - from + line_end(s@.skip(to as int)),
            decreases text.len() - to,
        {
            assert(s@.skip(to as int).skip(1) == s@.skip(to as int + 1));
            to += 1;
        }
        assert(line_end(rest) == to - from);
        let mut end: usize = to;
        if to < text.len() && to > from && text[to - 1] == '\r' {
            end = to - 1;
        }
        let line = s.substring_char(from, end).to_string();
        let ghost before = r@.map_values(|line: String| line@);
        r.push(line);
        assert(r@.map_values(|line: String| line@) == before.push(line@));
        if to < text.len() {
            assert(rest.take(to - from) == s@.subrange(from as int, to as int));
            if from < to {
                assert(s@.subrange(from as int, to as int).drop_last() == s@.subrange(
                    from as int,
                    to as int - 1,
                ));
            }
            assert(line@ == without_return(rest.take(to - from)));
            assert(rest.skip(to - from + 1) == s@.skip(to as int + 1));
            assert(before + (seq![line@] + lines(s@.skip(to as int + 1))) == before.push(line@)
                + lines(s@.skip(to as int + 1)));
            from = to + 1;
        } else {
            assert(line@ == rest);
            assert(before + seq![rest] == before.push(line@) + Seq::<Seq<char>>::empty());
            from = to;
        }
    }
    assert(r@.map_values(|line: String| line@) + lines(s@.skip(from as int)) == r@.map_values(
        |line: String| line@,
    ));
    r
}

/// The decimal digit of value `d`.
fn digit_char(d: u64) -> (r: char)
    requires
        d < 10,
    ensures
        r == digit(d as nat),
{
    match d {
        0 => '0',
        1 => '1',
        2 => '2',
        3 => '3',
        4 => '4',
        5 => '5',
        6 => '6',
        7 => '7',
        8 => '8',
        _ => '9',
    }
}

/// `n` in decimal.
pub fn to_decimal(n: u64) -> (r: String)
    ensures
        r@ == decimal(n as nat),
    decreases n,
{
    if n < 10 {
        let mut r = String::new();
        r.push(digit_char(n));
        assert(r@ == seq![digit(n as nat)]);
        r
    } else {
        let mut r = to_decimal(n / 10);
        r.push(digit_char(n % 10));
        r
    }
}

/// How many line feeds `s` ends with, counted up to two.
spec fn feeds_at_end(s: Seq<char>) -> nat {
    if s.len() == 0 || s.last() != '\n' {
        0
    } else if s.len() == 1 || s[s.len() - 2] != '\n' {
        1
    } else {
        2
    }
}

proof fn lemma_feeds_at_end(s: Seq<char>)
    ensures
        (feeds_at_end(s) == 2) == seq!['\n', '\n'].is_suffix_of(s),
{
    if s.len() >= 2 {
        let end = s.subrange(s.len() - 2, s.len() as int);
        assert(end[0] == s[s.len() - 2] && end[1] == s.last());
        if feeds_at_end(s) == 2 {
            assert(end == seq!['\n', '\n']);
        }
    }
}

/// Whether there are three line feeds in a row from place `i` on.
pub open spec fn three_feeds(s: Seq<char>, i: int) -> bool {
    0 <= i && i + 2 < s.len() && s[i] == '\n' && s[i + 1] == '\n' && s[i + 2] == '\n'
}

/// A squeezed text has no three line feeds in a row.
pub proof fn law_squeezed_short(s: Seq<char>, i: int)
    ensures
        !three_feeds(squeezed(s), i),
    decreases s.len(),
{
    if s.len() > 0 {
        let before = squeezed(s.drop_last());
        let after = squeezed(s);
        law_squeezed_short(s.drop_last(), i);
        if three_feeds(after, i) {
            assert(after == before.push(s.last()));
            let n = before.len() as int;
            if i + 2 < n {
                assert(three_feeds(before, i));
            } else {
                assert(i + 2 == n);
                assert(after[i] == before[i] && after[i + 1] == before[i + 1]);
                assert(before.subrange(n - 2, n) =~= seq!['\n', '\n']);
            }
        }
    }
}

/// A text without three line feeds in a row stays as it is.
pub proof fn law_squeezed_fixed(s: Seq<char>)
    requires
        forall|i: int| !#[trigger] three_feeds(s, i),
    ensures
        squeezed(s) == s,
    decreases s.len(),
{
    if s.len() > 0 {
        let before = s.drop_last();
        assert forall|i: int| !#[trigger] three_feeds(before, i) by {
            assert(!three_feeds(s, i));
        }
        law_squeezed_fixed(before);
        if s.last() == '\n' && seq!['\n', '\n'].is_suffix_of(before) {
            let n = before.len() as int;
            let end = before.subrange(n - 2, n);
            assert(end[0] == '\n' && end[1] == '\n');
            assert(three_feeds(s, n - 2));
        }
        assert(before.push(s.last()) == s);
    }
}

/// Cutting three line feeds in a row down to two, at any place, does not change what a text is
/// squeezed to. So doing that for as long as there is such a place squeezes the text.
pub proof fn law_squeezed_replace(a: Seq<char>, b: Seq<char>)
    ensures
        squeezed(a + "\n\n\n"@ + b) == squeezed(a + "\n\n"@ + b),
{
    reveal_strlit("\n\n\n");
    reveal_strlit("\n\n");
    let two = a + "\n\n"@;
    let three = a + "\n\n\n"@;
    assert(three.drop_last() =~= two);
    let one = two.drop_last();
    let none = one.drop_last();
    lemma_ends_with_feeds(none);
    assert(none.push('\n') =~= one);
    assert(one.push('\n') =~= two);
    assert(squeezed(three) == squeezed(two));
    lemma_squeezed_same_rest(three, two, b);
}

/// Behind two line feeds, a squeezed text ends with two.
proof fn lemma_ends_with_feeds(s: Seq<char>)
    ensures
        seq!['\n', '\n'].is_suffix_of(squeezed(s.push('\n').push('\n'))),
{
    let one = s.push('\n');
    let two = one.push('\n');
    assert(one.drop_last() == s);
    assert(two.drop_last() == one);
    let feeds = seq!['\n', '\n'];
    let r = squeezed(s);
    if feeds.is_suffix_of(r) {
        assert(squeezed(one) == r);
    } else {
        assert(squeezed(one) == r.push('\n'));
        if !feeds.is_suffix_of(squeezed(one)) {
            let last = squeezed(two);
            let n = last.len() as int;
            assert(last == r.push('\n').push('\n'));
            assert(last.subrange(n - 2, n) =~= feeds);
        }
    }
}

/// Texts that are squeezed to the same text still are with the same text behind them.
proof fn lemma_squeezed_same_rest(a: Seq<char>, b: Seq<char>, rest: Seq<char>)
    requires
        squeezed(a) == squeezed(b),
    ensures
        squeezed(a + rest) == squeezed(b + rest),
    decreases rest.len(),
{
    if rest.len() == 0 {
        assert(a + rest == a);
        assert(b + rest == b);
    } else {
        lemma_squeezed_same_rest(a, b, rest.drop_last());
        assert((a + rest).drop_last() == a + rest.drop_last());
        assert((b + rest).drop_last() == b + rest.drop_last());
        assert((a + rest).last() == rest.last());
        assert((b + rest).last() == rest.last());
    }
}

/// A number consists of digits.
pub proof fn lemma_digits(n: nat)
    ensures
        decimal(n).len() > 0,
        forall|i: int| 0 <= i < decimal(n).len() ==> '0' <= #[trigger] decimal(n)[i] <= '9',
    decreases n,
{
    if n >= 10 {
        lemma_digits(n / 10);
    }
    assert('0' <= digit(n % 10) <= '9');
}

/// A number has a digit.
pub proof fn lemma_decimal_not_empty(n: nat)
    ensures
        decimal(n).len() > 0,
{
}

/// Different numbers are written differently.
pub proof fn law_decimals_differ(a: nat, b: nat)
    requires
        a != b,
    ensures
        decimal(a) != decimal(b),
    decreases a,
{
    let (x, y) = (decimal(a), decimal(b));
    if x == y {
        assert(x.last() == digit(a % 10));
        assert(y.last() == digit(b % 10));
        assert(digit(a % 10) as nat == '0' as nat + a % 10);
        assert(digit(b % 10) as nat == '0' as nat + b % 10);
        if a >= 10 && b >= 10 {
            assert(x.drop_last() == decimal(a / 10));
            assert(y.drop_last() == decimal(b / 10));
            law_decimals_differ(a / 10, b / 10);
        } else {
            lemma_decimal_not_empty(a / 10);
            lemma_decimal_not_empty(b / 10);
        }
    }
}

} // verus!
