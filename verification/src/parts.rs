//! Texts that consist of parts, and texts that stand in others.
use crate::reader_laws::stands_at;
use crate::text::{squeezed, three_feeds};
use vstd::prelude::*;

verus! {

/// Whether `part` stands somewhere in a text.
pub open spec fn holds(text: Seq<char>, part: Seq<char>) -> bool {
    exists|i: int| #[trigger] stands_at(text, part, i)
}

/// The parts of a text, one right behind the other.
pub open spec fn in_a_row(parts: Seq<Seq<char>>) -> Seq<char>
    decreases parts.len(),
{
    if parts.len() == 0 {
        Seq::empty()
    } else {
        in_a_row(parts.drop_last()) + parts.last()
    }
}

/// The parts of a text, with a separator between each and the next.
pub open spec fn joined(parts: Seq<Seq<char>>, separator: Seq<char>) -> Seq<char>
    decreases parts.len(),
{
    if parts.len() == 0 {
        Seq::empty()
    } else if parts.len() == 1 {
        parts[0]
    } else {
        joined(parts.drop_last(), separator) + separator + parts.last()
    }
}

/// Whether a text has no three line feeds in a row.
pub open spec fn is_compact(text: Seq<char>) -> bool {
    forall|i: int| !#[trigger] three_feeds(text, i)
}

/// What stands in the middle of a text stands in it.
pub proof fn lemma_middle(a: Seq<char>, part: Seq<char>, b: Seq<char>)
    ensures
        holds(a + part + b, part),
        stands_at(a + part + b, part, a.len() as int),
{
    let text = a + part + b;
    assert(text.subrange(a.len() as int, a.len() as int + part.len()) =~= part);
    assert(stands_at(text, part, a.len() as int));
}

/// What stands in a part stands in the text.
pub proof fn lemma_inside(a: Seq<char>, whole: Seq<char>, b: Seq<char>, part: Seq<char>)
    requires
        holds(whole, part),
    ensures
        holds(a + whole + b, part),
{
    let i = choose|i: int| #[trigger] stands_at(whole, part, i);
    let text = a + whole + b;
    let k = a.len() + i;
    assert(text.subrange(k, k + part.len()) =~= whole.subrange(i, i + part.len()));
    assert(stands_at(text, part, k));
}

/// What stands in a part of a text stands in it.
pub proof fn lemma_within(text: Seq<char>, whole: Seq<char>, part: Seq<char>)
    requires
        holds(text, whole),
        holds(whole, part),
    ensures
        holds(text, part),
{
    let i = choose|i: int| #[trigger] stands_at(text, whole, i);
    let (a, b) = (text.take(i), text.skip(i + whole.len()));
    assert(text =~= a + whole + b);
    lemma_inside(a, whole, b, part);
}

/// What stands in the second of two texts stands in both together.
pub proof fn lemma_second(a: Seq<char>, whole: Seq<char>, part: Seq<char>)
    requires
        holds(whole, part),
    ensures
        holds(a + whole, part),
{
    lemma_inside(a, whole, Seq::empty(), part);
    assert(a + whole + Seq::<char>::empty() =~= a + whole);
}

/// What stands in the first of two texts stands in both together.
pub proof fn lemma_first(whole: Seq<char>, b: Seq<char>, part: Seq<char>)
    requires
        holds(whole, part),
    ensures
        holds(whole + b, part),
{
    lemma_inside(Seq::empty(), whole, b, part);
    assert(Seq::<char>::empty() + whole + b =~= whole + b);
}

/// A text starts with itself, and with what its start starts with.
pub proof fn lemma_starts(a: Seq<char>, b: Seq<char>, c: Seq<char>)
    ensures
        a.is_prefix_of(a),
        a.is_prefix_of(a + b),
        a.is_prefix_of(b) && b.is_prefix_of(c) ==> a.is_prefix_of(c),
{
    assert(a.subrange(0, a.len() as int) =~= a);
    assert((a + b).subrange(0, a.len() as int) =~= a);
    if a.is_prefix_of(b) && b.is_prefix_of(c) {
        assert(c.subrange(0, a.len() as int) =~= b.subrange(0, a.len() as int));
    }
}

/// What stands in the start of a text stands in it.
pub proof fn lemma_start_holds(start: Seq<char>, text: Seq<char>, part: Seq<char>)
    requires
        start.is_prefix_of(text),
        holds(start, part),
    ensures
        holds(text, part),
{
    let rest = text.skip(start.len() as int);
    assert(text =~= start + rest);
    lemma_first(start, rest, part);
}

/// Each part of a text stands in it.
pub proof fn law_parts_stand(parts: Seq<Seq<char>>, i: int)
    requires
        0 <= i < parts.len(),
    ensures
        holds(in_a_row(parts), parts[i]),
    decreases parts.len(),
{
    let before = in_a_row(parts.drop_last());
    if i == parts.len() - 1 {
        lemma_middle(before, parts[i], Seq::empty());
        assert(before + parts[i] + Seq::<char>::empty() =~= in_a_row(parts));
    } else {
        law_parts_stand(parts.drop_last(), i);
        lemma_inside(Seq::empty(), before, parts.last(), parts[i]);
        assert(Seq::<char>::empty() + before + parts.last() =~= in_a_row(parts));
    }
}

/// A text that is squeezed goes on from what its start is squeezed to.
proof fn lemma_squeezed_prefix(a: Seq<char>, b: Seq<char>)
    ensures
        squeezed(a).is_prefix_of(squeezed(a + b)),
    decreases b.len(),
{
    if b.len() == 0 {
        assert(a + b =~= a);
    } else {
        let rest = b.drop_last();
        lemma_squeezed_prefix(a, rest);
        assert((a + b).drop_last() =~= a + rest);
        let (first, before, after) = (squeezed(a), squeezed(a + rest), squeezed(a + b));
        assert(after.subrange(0, first.len() as int) =~= before.subrange(0, first.len() as int));
    }
}

/// A part without three line feeds in a row still ends a text that is squeezed.
proof fn lemma_squeezed_suffix(a: Seq<char>, part: Seq<char>)
    requires
        is_compact(part),
    ensures
        part.is_suffix_of(squeezed(a + part)),
    decreases part.len(),
{
    let all = a + part;
    if part.len() == 0 {
        assert(squeezed(all).subrange(squeezed(all).len() as int, squeezed(all).len() as int)
            =~= part);
    } else {
        let rest = part.drop_last();
        assert(all.drop_last() =~= a + rest);
        assert forall|i: int| !#[trigger] three_feeds(rest, i) by {
            assert(!three_feeds(part, i));
        }
        lemma_squeezed_suffix(a, rest);
        let before = squeezed(a + rest);
        let after = squeezed(all);
        let n = before.len() as int;
        let m = rest.len() as int;
        let end = before.subrange(n - m, n);
        assert(end == rest);
        if part.last() == '\n' && seq!['\n', '\n'].is_suffix_of(before) {
            assert(after == before);
            let feeds = before.subrange(n - 2, n);
            assert(feeds[0] == '\n' && feeds[1] == '\n');
            assert(before[n - 1] == '\n' && before[n - 2] == '\n');
            if m >= 2 {
                assert(end[m - 1] == before[n - 1] && end[m - 2] == before[n - 2]);
                assert(part[m - 1] == '\n' && part[m - 2] == '\n');
                assert(three_feeds(part, m - 2));
            } else if m == 1 {
                assert(end[0] == before[n - 1]);
                assert(part[0] == '\n' && part[1] == '\n');
                assert(after.subrange(n - 2, n) =~= part);
            } else {
                assert(after.subrange(n - 1, n) =~= part);
            }
        } else {
            assert(after == before.push(part.last()));
            assert forall|k: int| 0 <= k < part.len() implies after.subrange(n - m, n + 1)[k]
                == #[trigger] part[k] by {
                if k < m {
                    assert(end[k] == before[n - m + k]);
                    assert(rest[k] == part[k]);
                }
            }
            assert(after.subrange(n - m, n + 1) =~= part);
        }
    }
}

/// A part without three line feeds in a row still stands in a text that is squeezed.
pub proof fn law_squeezed_holds(text: Seq<char>, part: Seq<char>)
    requires
        is_compact(part),
        holds(text, part),
    ensures
        holds(squeezed(text), part),
{
    let i = choose|i: int| #[trigger] stands_at(text, part, i);
    let a = text.take(i);
    let b = text.skip(i + part.len());
    assert(text =~= a + part + b);
    lemma_squeezed_suffix(a, part);
    lemma_squeezed_prefix(a + part, b);
    let first = squeezed(a + part);
    let all = squeezed(text);
    let k = first.len() - part.len();
    assert(first == all.subrange(0, first.len() as int));
    assert(all.subrange(k, k + part.len()) =~= first.subrange(k, first.len() as int));
    assert(stands_at(all, part, k));
}

} // verus!
