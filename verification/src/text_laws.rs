//! What holds of texts, numbers, lines, names and the modes of the glue.
use crate::config::OutputMode;
use crate::names::{identifier, precedes};
use crate::text::{decimal, digit, is_space, line_end, lines, trimmed, trimmed_end, trimmed_start};
use vstd::multiset::Multiset;
use vstd::prelude::*;

verus! {

/// Whether a text is white space alone.
pub open spec fn is_blank(text: Seq<char>) -> bool {
    forall|i: int| 0 <= i < text.len() ==> is_space(#[trigger] text[i])
}

/// A text is white space, then what it is trimmed to, then white space; and what it is trimmed to
/// starts and ends with no white space.
pub proof fn law_trimmed(text: Seq<char>) -> (around: (Seq<char>, Seq<char>))
    ensures
        text == around.0 + trimmed(text) + around.1,
        is_blank(around.0),
        is_blank(around.1),
        trimmed(text).len() > 0 ==> !is_space(trimmed(text)[0]) && !is_space(trimmed(text).last()),
{
    let before = lemma_trimmed_start(text);
    let after = lemma_trimmed_end(trimmed_start(text));
    let part = trimmed(text);
    assert(text =~= before + part + after);
    if part.len() > 0 {
        assert(part[0] == trimmed_start(text)[0]);
    }
    (before, after)
}

/// What a text is trimmed to at its start, and what that takes off.
proof fn lemma_trimmed_start(text: Seq<char>) -> (before: Seq<char>)
    ensures
        text == before + trimmed_start(text),
        is_blank(before),
        trimmed_start(text).len() > 0 ==> !is_space(trimmed_start(text)[0]),
    decreases text.len(),
{
    if text.len() > 0 && is_space(text[0]) {
        let rest = lemma_trimmed_start(text.skip(1));
        let before = seq![text[0]] + rest;
        assert(text =~= seq![text[0]] + text.skip(1));
        assert(seq![text[0]] + (rest + trimmed_start(text)) =~= before + trimmed_start(text));
        before
    } else {
        assert(text =~= Seq::<char>::empty() + text);
        Seq::empty()
    }
}

/// What a text is trimmed to at its end, and what that takes off.
proof fn lemma_trimmed_end(text: Seq<char>) -> (after: Seq<char>)
    ensures
        text == trimmed_end(text) + after,
        is_blank(after),
        trimmed_end(text).len() > 0 ==> !is_space(trimmed_end(text).last()),
    decreases text.len(),
{
    if text.len() > 0 && is_space(text.last()) {
        let rest = lemma_trimmed_end(text.drop_last());
        let after = rest.push(text.last());
        assert(text =~= text.drop_last().push(text.last()));
        assert((trimmed_end(text) + rest).push(text.last()) =~= trimmed_end(text) + after);
        after
    } else {
        assert(text =~= text + Seq::<char>::empty());
        Seq::empty()
    }
}

/// White space is what Unicode calls so: the line feed, the tab and the blank among it, and no
/// letter, digit or sign of ASCII.
pub proof fn law_space(c: char)
    ensures
        (c as u32) < 128 ==> (is_space(c) <==> c == ' ' || c == '\t' || c == '\n' || c == '\r' || c
            == '\u{b}' || c == '\u{c}'),
        (c as u32) >= 128 ==> (is_space(c) <==> c == '\u{85}' || c == '\u{a0}' || c == '\u{1680}'
            || ('\u{2000}' <= c <= '\u{200a}') || c == '\u{2028}' || c == '\u{2029}' || c
            == '\u{202f}' || c == '\u{205f}' || c == '\u{3000}'),
{
}

/// Whether a text has no line feed.
pub open spec fn is_one_line(text: Seq<char>) -> bool {
    forall|i: int| 0 <= i < text.len() ==> #[trigger] text[i] != '\n'
}

/// The first line feed of a text ends its first line, and the other lines are those of what follows
/// it. A carriage return before the line feed belongs to the end of the line.
pub proof fn law_lines(line: Seq<char>, rest: Seq<char>)
    requires
        is_one_line(line),
    ensures
        lines(line + "\n"@ + rest) == seq![
            if line.len() > 0 && line.last() == '\r' {
                line.drop_last()
            } else {
                line
            },
        ] + lines(rest),
        lines(line) == (if line.len() == 0 {
            Seq::empty()
        } else {
            seq![line]
        }),
{
    reveal_strlit("\n");
    let text = line + "\n"@ + rest;
    lemma_line_end(line, "\n"@ + rest);
    assert(text =~= line + ("\n"@ + rest));
    assert(text.take(line.len() as int) =~= line);
    assert(text.skip(line.len() as int + 1) =~= rest);
    lemma_line_end(line, Seq::empty());
    assert(line + Seq::<char>::empty() =~= line);
}

/// Where the first line of a text ends.
proof fn lemma_line_end(line: Seq<char>, rest: Seq<char>)
    requires
        is_one_line(line),
        rest.len() > 0 ==> rest[0] == '\n',
    ensures
        line_end(line + rest) == line.len(),
    decreases line.len(),
{
    let text = line + rest;
    if line.len() > 0 {
        assert(text[0] == line[0]);
        assert(text.skip(1) =~= line.skip(1) + rest);
        assert forall|i: int| 0 <= i < line.skip(1).len() implies #[trigger] line.skip(1)[i]
            != '\n' by {
            assert(line[i + 1] != '\n');
        }
        lemma_line_end(line.skip(1), rest);
    } else {
        assert(text =~= rest);
    }
}

/// The value that digits have in decimal.
pub open spec fn value(digits: Seq<char>) -> int
    decreases digits.len(),
{
    if digits.len() == 0 {
        0
    } else {
        10 * value(digits.drop_last()) + (digits.last() as int - 48)
    }
}

/// A number in decimal has the value of the number, consists of digits, and has no leading zero but
/// for zero itself.
pub proof fn law_decimal(n: nat)
    ensures
        value(decimal(n)) == n,
        decimal(n).len() > 0,
        forall|i: int| 0 <= i < decimal(n).len() ==> '0' <= #[trigger] decimal(n)[i] <= '9',
        decimal(n)[0] == '0' ==> n == 0 && decimal(n).len() == 1,
    decreases n,
{
    reveal_with_fuel(value, 2);
    let d = n % 10;
    assert(digit(d) as nat == 48 + d);
    if n >= 10 {
        law_decimal(n / 10);
        assert(decimal(n).drop_last() =~= decimal(n / 10));
        assert(decimal(n).last() == digit(d));
        assert(decimal(n)[0] == decimal(n / 10)[0]);
    } else {
        assert(decimal(n) =~= seq![digit(n)]);
        assert(decimal(n).drop_last() =~= Seq::<char>::empty());
    }
}

/// A name gets its own identifier the first time, and at its n-th use a number n behind it;
/// `default` gets one at once. How often other names are used makes no difference.
pub proof fn law_identifier(used: Multiset<Seq<char>>, name: Seq<char>)
    ensures
        used.count(name) == 0 && name != "default"@ ==> identifier(used, name) == name,
        used.count(name) > 0 || name == "default"@ ==> exists|number: Seq<char>|
            #![trigger (name + number)]
            identifier(used, name) == name + number && value(number) == used.count(name) + 1
                && number[0] != '0' && number.len() > 0,
{
    if used.count(name) > 0 || name == "default"@ {
        let number = decimal(used.count(name) + 1);
        law_decimal(used.count(name) + 1);
        assert(identifier(used, name) == name + number);
    }
}

/// Names are ordered as in a dictionary: by the first character in which they differ, and a name
/// comes before those that go on from it.
pub proof fn law_precedes(front: Seq<char>, a: Seq<char>, b: Seq<char>)
    ensures
        precedes(front + a, front + b) == precedes(a, b),
        a.len() > 0 && b.len() > 0 && a[0] != b[0] ==> precedes(a, b) == (a[0] < b[0]),
        b.len() > 0 ==> precedes(Seq::empty(), b),
        !precedes(a, Seq::empty()),
    decreases front.len(),
{
    if front.len() > 0 {
        let rest = front.skip(1);
        law_precedes(rest, a, b);
        assert((front + a).skip(1) =~= rest + a);
        assert((front + b).skip(1) =~= rest + b);
        assert((front + a)[0] == (front + b)[0]);
    } else {
        assert(front + a =~= a);
        assert(front + b =~= b);
    }
}

/// What the glue is for, mode by mode: whether it is an ES module, a script, for Node.js, for a
/// bundler, or never outside a browser.
pub proof fn law_modes(mode: OutputMode)
    ensures
        match mode {
            OutputMode::Bundler { browser_only } => {
                &&& mode.uses_es_modules() && mode.bundler() && !mode.nodejs() && !mode.no_modules()
                &&& mode.always_run_in_browser() == browser_only
            },
            OutputMode::Web => {
                &&& mode.uses_es_modules() && !mode.bundler() && !mode.nodejs()
                    && !mode.no_modules()
                &&& mode.always_run_in_browser()
            },
            OutputMode::NoModules { global } => {
                &&& !mode.uses_es_modules() && !mode.bundler() && !mode.nodejs()
                    && mode.no_modules()
                &&& mode.always_run_in_browser()
            },
            OutputMode::Node { experimental_modules } => {
                &&& mode.uses_es_modules() == experimental_modules && !mode.bundler()
                    && mode.nodejs() && !mode.no_modules()
                &&& !mode.always_run_in_browser()
            },
        },
{
}

} // verus!
