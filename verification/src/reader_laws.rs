//! How often the functions that read items stand in the glue.
use crate::bindings::ImportNameView;
use crate::calls::{lacks_len, lemma_emits, lemma_len_join, lemma_reader, len_at, notes};
use crate::config::{Bindgen, VectorKind};
use crate::context::{feeds, gap, with_item, GlueView};
use crate::helper_laws::{get_helper, get_text, law_get_names_differ};
use crate::helpers::{
    get_array, get_name, get_string, lemma_expose, lemma_perform, top_layer, Helper, Step,
};
use crate::keys::law_keys_differ;
use crate::module::ModuleView;
use crate::names::identifier;
use crate::run_laws::{law_call_exposes, law_calls_expose, lemma_imports_stay, Call};
use crate::snippets::{
    GET_ARRAY_JSVALUE_ANYREF, GET_ARRAY_JSVALUE_HEAP, PROCESSOR_BROWSER_0, PROCESSOR_BROWSER_1,
    PROCESSOR_BROWSER_2, PROCESSOR_FOUND_0, PROCESSOR_FOUND_1, PROCESSOR_FOUND_2,
    PROCESSOR_LOOKUP_0, PROCESSOR_LOOKUP_1, PROCESSOR_LOOKUP_2, PROCESSOR_LOOKUP_3,
    PROCESSOR_LOOKUP_4, PROCESSOR_NODE_0, PROCESSOR_NODE_1, PROCESSOR_NODE_2,
};
use crate::text::{decimal, is_space, lemma_digits, trimmed, trimmed_end, trimmed_start};
use vstd::multiset::Multiset;
use vstd::prelude::*;

verus! {

/// Whether `part` stands in a text at place `i`.
pub open spec fn stands_at(text: Seq<char>, part: Seq<char>, i: int) -> bool {
    &&& 0 <= i && i + part.len() <= text.len()
    &&& text.subrange(i, i + part.len()) == part
}

/// How often `part` stands in a text.
pub open spec fn occurrences(text: Seq<char>, part: Seq<char>) -> nat
    decreases text.len(),
{
    if text.len() == 0 {
        0
    } else {
        occurrences(text.drop_last(), part) + (if stands_at(text, part, text.len() - part.len()) {
            1nat
        } else {
            0nat
        })
    }
}

/// The head of the function that reads items of some kind.
pub open spec fn reader_head(kind: VectorKind) -> Seq<char> {
    "function "@ + get_name(kind) + "(ptr, len) {"@
}

/// The name of a function has no space and no line feed.
proof fn lemma_name(kind: VectorKind)
    ensures
        forall|i: int|
            0 <= i < get_name(kind).len() ==> (#[trigger] get_name(kind)[i]) != ' ' && get_name(
                kind,
            )[i] != '\n',
{
    match kind {
        VectorKind::I8 => {
            reveal_strlit("getArrayI8FromWasm");
        },
        VectorKind::U8 => {
            reveal_strlit("getArrayU8FromWasm");
        },
        VectorKind::ClampedU8 => {
            reveal_strlit("getClampedArrayU8FromWasm");
        },
        VectorKind::I16 => {
            reveal_strlit("getArrayI16FromWasm");
        },
        VectorKind::U16 => {
            reveal_strlit("getArrayU16FromWasm");
        },
        VectorKind::I32 => {
            reveal_strlit("getArrayI32FromWasm");
        },
        VectorKind::U32 => {
            reveal_strlit("getArrayU32FromWasm");
        },
        VectorKind::I64 => {
            reveal_strlit("getArrayI64FromWasm");
        },
        VectorKind::U64 => {
            reveal_strlit("getArrayU64FromWasm");
        },
        VectorKind::F32 => {
            reveal_strlit("getArrayF32FromWasm");
        },
        VectorKind::F64 => {
            reveal_strlit("getArrayF64FromWasm");
        },
        VectorKind::String => {
            reveal_strlit("getStringFromWasm");
        },
        VectorKind::Anyref => {
            reveal_strlit("getArrayJsValueFromWasm");
        },
    }
}

/// What the head of a function looks like.
proof fn lemma_head(kind: VectorKind)
    ensures
        reader_head(kind).len() == get_name(kind).len() + 21,
        reader_head(kind)[0] == 'f',
        reader_head(kind)[8] == ' ',
        reader_head(kind).last() == '{',
        forall|i: int|
            0 <= i < get_name(kind).len() ==> reader_head(kind)[9 + i] == #[trigger] get_name(
                kind,
            )[i],
        forall|i: int| 0 <= i < reader_head(kind).len() ==> #[trigger] reader_head(kind)[i] != '\n',
        len_at(reader_head(kind), reader_head(kind).len() - 5),
{
    reveal_strlit("function ");
    reveal_strlit("(ptr, len) {");
    lemma_name(kind);
    let head = reader_head(kind);
    let n = get_name(kind).len() as int;
    assert forall|i: int| 0 <= i < head.len() implies #[trigger] head[i] != '\n' by {
        if 9 <= i < 9 + n {
            assert(head[i] == get_name(kind)[i - 9]);
        } else if i >= 9 + n {
            assert(head[i] == "(ptr, len) {"@[i - 9 - n]);
        }
    }
}

/// A text in which a part stands nowhere.
proof fn lemma_nowhere(text: Seq<char>, part: Seq<char>)
    requires
        forall|i: int| !#[trigger] stands_at(text, part, i),
    ensures
        occurrences(text, part) == 0,
    decreases text.len(),
{
    if text.len() > 0 {
        let rest = text.drop_last();
        assert forall|i: int| !#[trigger] stands_at(rest, part, i) by {
            if stands_at(rest, part, i) {
                assert(text.subrange(i, i + part.len()) =~= rest.subrange(i, i + part.len()));
                assert(stands_at(text, part, i));
            }
        }
        lemma_nowhere(rest, part);
    }
}

/// A text in which a part stands at one place.
proof fn lemma_somewhere(text: Seq<char>, part: Seq<char>, place: int)
    requires
        part.len() > 0,
        forall|i: int| #[trigger] stands_at(text, part, i) <==> i == place,
    ensures
        occurrences(text, part) == 1,
    decreases text.len(),
{
    assert(stands_at(text, part, place));
    let rest = text.drop_last();
    assert forall|i: int| #[trigger] stands_at(rest, part, i) <==> i == place && i + part.len()
        < text.len() by {
        if i >= 0 && i + part.len() < text.len() {
            assert(text.subrange(i, i + part.len()) =~= rest.subrange(i, i + part.len()));
            assert(stands_at(text, part, i) == stands_at(rest, part, i));
        }
    }
    if place + part.len() == text.len() {
        lemma_nowhere(rest, part);
    } else {
        lemma_somewhere(rest, part, place);
    }
}

/// Two texts with a line feed between them hold a part as often as each of them.
proof fn lemma_beside(a: Seq<char>, b: Seq<char>, part: Seq<char>)
    requires
        part.len() > 0,
        forall|i: int| 0 <= i < part.len() ==> #[trigger] part[i] != '\n',
        a.len() == 0 || a.last() == '\n' || b.len() == 0 || b[0] == '\n',
    ensures
        occurrences(a + b, part) == occurrences(a, part) + occurrences(b, part),
    decreases b.len(),
{
    let t = a + b;
    if b.len() == 0 {
        assert(t =~= a);
    } else {
        let rest = b.drop_last();
        assert(t.drop_last() =~= a + rest);
        lemma_beside(a, rest, part);
        let start = t.len() - part.len();
        if part.len() <= b.len() {
            assert(t.subrange(start, t.len() as int) =~= b.subrange(
                b.len() - part.len(),
                b.len() as int,
            ));
        } else if stands_at(t, part, start) {
            let k = a.len() - start;
            assert(part[k - 1] == t[a.len() - 1]);
            assert(part[k] == t[a.len() as int]);
        }
    }
}

/// White space before a text does not matter.
proof fn lemma_space_before(text: Seq<char>, part: Seq<char>)
    requires
        part.len() > 0,
        !is_space(part[0]),
        text.len() > 0,
        is_space(text[0]),
    ensures
        occurrences(text.skip(1), part) == occurrences(text, part),
    decreases text.len(),
{
    let rest = text.drop_last();
    let skipped = text.skip(1);
    let start = text.len() - part.len();
    if start == 0 && stands_at(text, part, start) {
        assert(text.subrange(0, part.len() as int)[0] == text[0]);
    }
    if text.len() > 1 {
        lemma_space_before(rest, part);
        assert(skipped.drop_last() =~= rest.skip(1));
        if start > 0 {
            assert(text.subrange(start, text.len() as int) =~= skipped.subrange(
                start - 1,
                skipped.len() as int,
            ));
        }
        assert(stands_at(text, part, start) == stands_at(skipped, part, start - 1));
    } else {
        assert(occurrences(rest, part) == 0 && occurrences(skipped, part) == 0);
    }
}

/// White space around a text does not matter.
proof fn lemma_trimmed(text: Seq<char>, part: Seq<char>)
    requires
        part.len() > 0,
        !is_space(part[0]),
        !is_space(part.last()),
    ensures
        occurrences(trimmed(text), part) == occurrences(text, part),
{
    lemma_trimmed_start(text, part);
    lemma_trimmed_end(trimmed_start(text), part);
}

/// White space before a text does not matter.
proof fn lemma_trimmed_start(text: Seq<char>, part: Seq<char>)
    requires
        part.len() > 0,
        !is_space(part[0]),
    ensures
        occurrences(trimmed_start(text), part) == occurrences(text, part),
    decreases text.len(),
{
    if text.len() > 0 && is_space(text[0]) {
        lemma_space_before(text, part);
        lemma_trimmed_start(text.skip(1), part);
    }
}

/// White space behind a text does not matter.
proof fn lemma_trimmed_end(text: Seq<char>, part: Seq<char>)
    requires
        part.len() > 0,
        !is_space(part.last()),
    ensures
        occurrences(trimmed_end(text), part) == occurrences(text, part),
    decreases text.len(),
{
    if text.len() > 0 && is_space(text.last()) {
        if stands_at(text, part, text.len() - part.len()) {
            assert(part.last() == text.last());
        }
        lemma_trimmed_end(text.drop_last(), part);
    }
}

/// Line feeds hold nothing.
proof fn lemma_feeds(n: nat, kind: VectorKind)
    ensures
        occurrences(feeds(n), reader_head(kind)) == 0,
{
    let head = reader_head(kind);
    lemma_head(kind);
    assert forall|i: int| !#[trigger] stands_at(feeds(n), head, i) by {
        if stands_at(feeds(n), head, i) {
            assert(head[0] == feeds(n)[i]);
        }
    }
    lemma_nowhere(feeds(n), head);
}

/// An item adds the heads that it holds.
pub proof fn law_item_heads(text: Seq<char>, item: Seq<char>, kind: VectorKind)
    ensures
        occurrences(with_item(text, item), reader_head(kind)) == occurrences(
            text,
            reader_head(kind),
        ) + occurrences(item, reader_head(kind)),
{
    reveal(with_item);
    reveal_strlit("\n");
    reveal_strlit("\n\n\n");
    reveal_strlit("*/\n");
    let head = reader_head(kind);
    lemma_head(kind);
    let n = gap(text);
    let spaced = text + feeds(n);
    if n > 0 {
        assert(feeds(n)[0] == '\n');
        assert(spaced.last() == '\n');
    } else {
        let end = if "\n\n\n"@.is_suffix_of(text) {
            "\n\n\n"@
        } else {
            "*/\n"@
        };
        assert(text.last() == end.last());
        assert(spaced =~= text);
    }
    lemma_beside(text, feeds(n), head);
    lemma_feeds(n, kind);
    lemma_beside(spaced, trimmed(item), head);
    lemma_trimmed(item, head);
    lemma_beside(spaced + trimmed(item), "\n"@, head);
    assert("\n"@ =~= feeds(1));
    lemma_feeds(1, kind);
}

/// A text without `en) ` holds no head.
proof fn lemma_lacking(text: Seq<char>, kind: VectorKind)
    requires
        lacks_len(text),
    ensures
        occurrences(text, reader_head(kind)) == 0,
{
    let head = reader_head(kind);
    lemma_head(kind);
    assert forall|i: int| !#[trigger] stands_at(text, head, i) by {
        if stands_at(text, head, i) {
            lemma_carried(text, head, i, head.len() - 5);
        }
    }
    lemma_nowhere(text, head);
}

/// Where a part stands, what it holds stands.
proof fn lemma_carried(text: Seq<char>, part: Seq<char>, i: int, j: int)
    requires
        stands_at(text, part, i),
        len_at(part, j),
    ensures
        len_at(text, i + j),
{
    assert forall|k: int| 0 <= k < part.len() implies #[trigger] part[k] == text[i + k] by {
        assert(text.subrange(i, i + part.len())[k] == text[i + k]);
    }
    assert(part[j] == text[i + j] && part[j + 1] == text[i + j + 1]);
    assert(part[j + 2] == text[i + j + 2] && part[j + 3] == text[i + j + 3]);
}

/// Where the head of a function stands in its text.
proof fn lemma_own_place(state: GlueView, kind: VectorKind) -> (place: int)
    ensures
        stands_at(get_text(state, kind), reader_head(kind), place),
        forall|i: int| #[trigger]
            len_at(get_text(state, kind), i) <==> i == place + reader_head(kind).len() - 5,
{
    let text = get_text(state, kind);
    let head = reader_head(kind);
    lemma_head(kind);
    lemma_reader(state, kind);
    reveal_strlit("function ");
    reveal_strlit("(ptr, len) {");
    match get_helper(kind) {
        Helper::GetArray { name, memory, size } => {
            reveal_strlit(
                "
            function ",
            );
            reveal_strlit(
                "(ptr, len) {
                return ",
            );
            assert(get_name(kind) == name);
            assert(text.subrange(13, 13int + head.len()) =~= head);
            13
        },
        Helper::GetString => {
            reveal_strlit("getStringFromWasm");
            reveal_strlit(
                "
            function getStringFromWasm(ptr, len) {
                return cachedTextDecoder.decode(getUint8Memory().",
            );
            assert(text.subrange(13, 13int + head.len()) =~= head);
            13
        },
        _ => {
            reveal_strlit("getArrayJsValueFromWasm");
            reveal_strlit(
                "
                function getArrayJsValueFromWasm(ptr, len) {
                    const mem = getUint32Memory();
                    const slice = mem.subarray(ptr / 4, ptr / 4 + len);
                    const result = [];
                    for (let i = 0; i < slice.length; i++) {
                        result.push(wasm.__wbg_anyref_table.get(slice[i]));
                    }
                    wasm.__wbindgen_drop_anyref_slice(ptr, len);
                    return result;
                }
                ",
            );
            reveal_strlit(
                "
                function getArrayJsValueFromWasm(ptr, len) {
                    const mem = getUint32Memory();
                    const slice = mem.subarray(ptr / 4, ptr / 4 + len);
                    const result = [];
                    for (let i = 0; i < slice.length; i++) {
                        result.push(takeObject(slice[i]));
                    }
                    return result;
                }
                ",
            );
            assert(text.subrange(17, 17int + head.len()) =~= head);
            17
        },
    }
}

/// The text of a function holds its head once.
proof fn lemma_own(state: GlueView, kind: VectorKind)
    ensures
        occurrences(get_text(state, kind), reader_head(kind)) == 1,
{
    let text = get_text(state, kind);
    let head = reader_head(kind);
    lemma_head(kind);
    let place = lemma_own_place(state, kind);
    assert forall|i: int| #[trigger] stands_at(text, head, i) <==> i == place by {
        if stands_at(text, head, i) {
            lemma_carried(text, head, i, head.len() - 5);
        }
    }
    lemma_somewhere(text, head, place);
}

/// The text of a function does not hold the head of another.
proof fn lemma_other(state: GlueView, kind: VectorKind, other: VectorKind)
    requires
        kind != other,
    ensures
        occurrences(get_text(state, kind), reader_head(other)) == 0,
{
    let text = get_text(state, kind);
    let (head, wrong) = (reader_head(kind), reader_head(other));
    lemma_head(kind);
    lemma_head(other);
    lemma_name(kind);
    lemma_name(other);
    let place = lemma_own_place(state, kind);
    assert forall|i: int| !#[trigger] stands_at(text, wrong, i) by {
        if stands_at(text, wrong, i) {
            lemma_carried(text, wrong, i, wrong.len() - 5);
            assert(i + wrong.len() == place + head.len());
            let k = head.len() - wrong.len();
            assert forall|j: int| 0 <= j < wrong.len() implies #[trigger] wrong[j] == text[i + j] by {
                assert(text.subrange(i, i + wrong.len())[j] == text[i + j]);
            }
            assert forall|j: int| 0 <= j < head.len() implies #[trigger] head[j] == text[place
                + j] by {
                assert(text.subrange(place, place + head.len())[j] == text[place + j]);
            }
            if k > 0 {
                assert(wrong[8] == head[8 + k]);
                assert(head[9 + (k - 1)] == get_name(kind)[k - 1]);
            } else if k < 0 {
                assert(head[8] == wrong[8 - k]);
                assert(wrong[9 + (-k - 1)] == get_name(other)[-k - 1]);
            } else {
                assert forall|j: int| 0 <= j < get_name(kind).len() implies get_name(kind)[j]
                    == get_name(other)[j] by {
                    assert(head[9 + j] == text[place + 9 + j]);
                    assert(wrong[9 + j] == text[i + 9 + j]);
                }
                assert(get_name(kind) =~= get_name(other));
                law_get_names_differ(kind, other);
            }
        }
    }
    lemma_nowhere(text, wrong);
}

/// The places of `TextEncoder` and `TextDecoder` on Node.js.
pub open spec fn of_util(name: Seq<char>) -> ImportNameView {
    ImportNameView::Module { module: "util"@, name }
}

/// Whether this is `TextEncoder` or `TextDecoder`.
pub open spec fn is_processor(name: Seq<char>) -> bool {
    name == "TextEncoder"@ || name == "TextDecoder"@
}

impl GlueView {
    /// Whether the local names of `TextEncoder` and `TextDecoder` are names.
    pub open spec fn has_plain_processors(self) -> bool {
        forall|name: Seq<char>|
            is_processor(name) && #[trigger] self.imported.contains_key(of_util(name))
                ==> !self.imported[of_util(name)].contains(')')
    }
}

/// Identifiers for `TextEncoder` and `TextDecoder` are names.
proof fn lemma_processor_name(used: Multiset<Seq<char>>, name: Seq<char>)
    requires
        is_processor(name),
    ensures
        !identifier(used, name).contains(')'),
{
    reveal_strlit("TextEncoder");
    reveal_strlit("TextDecoder");
    let n = used.count(name) + 1;
    lemma_digits(n);
    let numbered = name + decimal(n);
    assert forall|i: int| 0 <= i < numbered.len() implies numbered[i] != ')' by {
        if i >= name.len() {
            assert('0' <= decimal(n)[i - name.len()] <= '9');
        }
    }
}

/// A text without a closing bracket has no `en) `.
proof fn lemma_no_bracket(text: Seq<char>)
    requires
        !text.contains(')'),
    ensures
        lacks_len(text),
{
    assert forall|i: int| !#[trigger] len_at(text, i) by {
        if len_at(text, i) {
            assert(text[i + 2] == ')');
        }
    }
}

/// What makes `TextEncoder` or `TextDecoder` available holds no head.
proof fn lemma_processor_texts(name: Seq<char>, local: Seq<char>)
    requires
        is_processor(name),
        !local.contains(')'),
    ensures
        lacks_len(
            PROCESSOR_NODE_0@ + name + PROCESSOR_NODE_1@ + local + PROCESSOR_NODE_2@,
        ),
        lacks_len(
            PROCESSOR_LOOKUP_0@ + name + PROCESSOR_LOOKUP_1@ + name + PROCESSOR_LOOKUP_2@ + name
                + PROCESSOR_LOOKUP_3@ + name + PROCESSOR_LOOKUP_4@,
        ),
        lacks_len(PROCESSOR_FOUND_0@ + name + PROCESSOR_FOUND_1@ + name + PROCESSOR_FOUND_2@),
        lacks_len(
            PROCESSOR_BROWSER_0@ + name + PROCESSOR_BROWSER_1@ + name + PROCESSOR_BROWSER_2@,
        ),
{
    reveal_strlit("TextEncoder");
    reveal_strlit("TextDecoder");
    reveal_strlit("let cached");
    reveal_strlit(" = new ");
    reveal_strlit(" = new l");
    reveal_strlit("('utf-8');");
    reveal_strlit(
        "\n                    const l",
    );
    reveal_strlit(" = typeof ");
    reveal_strlit(" === 'undefined' ? require('util').");
    reveal_strlit(" : ");
    reveal_strlit(";");
    lemma_no_bracket(name);
    lemma_no_bracket(local);
    lemma_no_bracket("let cached"@);
    lemma_no_bracket(" = new "@);
    lemma_no_bracket(" = new l"@);
    lemma_no_bracket(PROCESSOR_LOOKUP_0@);
    lemma_no_bracket(" = typeof "@);
    lemma_no_bracket(" : "@);
    lemma_no_bracket(";"@);
    assert(lacks_len("('utf-8');"@));
    assert(lacks_len(PROCESSOR_LOOKUP_2@));
    lemma_framed(PROCESSOR_NODE_0@, name, PROCESSOR_NODE_1@, local, PROCESSOR_NODE_2@);
    lemma_framed(PROCESSOR_FOUND_0@, name, PROCESSOR_FOUND_1@, name, PROCESSOR_FOUND_2@);
    lemma_framed(PROCESSOR_BROWSER_0@, name, PROCESSOR_BROWSER_1@, name, PROCESSOR_BROWSER_2@);
    lemma_framed(PROCESSOR_LOOKUP_0@, name, PROCESSOR_LOOKUP_1@, name, PROCESSOR_LOOKUP_2@);
    let looked_up = PROCESSOR_LOOKUP_0@ + name + PROCESSOR_LOOKUP_1@ + name + PROCESSOR_LOOKUP_2@;
    lemma_framed(looked_up, name, PROCESSOR_LOOKUP_3@, name, PROCESSOR_LOOKUP_4@);
}

/// Five texts behind each other have no `en) ` where none has.
proof fn lemma_framed(a: Seq<char>, b: Seq<char>, c: Seq<char>, d: Seq<char>, e: Seq<char>)
    requires
        lacks_len(a) && lacks_len(b) && lacks_len(c) && lacks_len(d) && lacks_len(e),
        a.len() > 0 && b.len() > 0 && c.len() > 0 && e.len() > 0,
        a.last() != 'e' && a.last() != 'n' && a.last() != ')',
        b.last() != 'e' && b.last() != 'n' && b.last() != ')',
        c.last() != 'e' && c.last() != 'n' && c.last() != ')',
        e[0] != 'n' && e[0] != ')' && e[0] != ' ' || d.len() > 0 && d.last() == 'r',
    ensures
        lacks_len(a + b + c + d + e),
{
    lemma_len_join(a, b);
    assert((a + b).last() == b.last());
    lemma_len_join(a + b, c);
    assert((a + b + c).last() == c.last());
    lemma_len_join(a + b + c, d);
    let t = a + b + c + d;
    if d.len() > 0 {
        assert(t.last() == d.last());
    }
    lemma_len_join(t, e);
}

/// Making `TextEncoder` or `TextDecoder` available adds no head.
proof fn lemma_processor(state: GlueView, name: Seq<char>, kind: VectorKind)
    requires
        is_processor(name),
        state.has_plain_processors(),
    ensures
        occurrences(state.text_processor(name).globals, reader_head(kind)) == occurrences(
            state.globals,
            reader_head(kind),
        ),
        state.text_processor(name).has_plain_processors(),
        state.text_processor(name).exposed == state.exposed,
{
    reveal(GlueView::text_processor);
    let import = of_util(name);
    let local = state.import_name(import, Seq::empty());
    lemma_processor_name(state.identifiers, name);
    lemma_processor_texts(name, local.result->Ok_0);
    let node = PROCESSOR_NODE_0@ + name + PROCESSOR_NODE_1@ + local.result->Ok_0
        + PROCESSOR_NODE_2@;
    let lookup = PROCESSOR_LOOKUP_0@ + name + PROCESSOR_LOOKUP_1@ + name + PROCESSOR_LOOKUP_2@
        + name + PROCESSOR_LOOKUP_3@ + name + PROCESSOR_LOOKUP_4@;
    let found = PROCESSOR_FOUND_0@ + name + PROCESSOR_FOUND_1@ + name + PROCESSOR_FOUND_2@;
    let browser = PROCESSOR_BROWSER_0@ + name + PROCESSOR_BROWSER_1@ + name
        + PROCESSOR_BROWSER_2@;
    lemma_lacking(node, kind);
    lemma_lacking(lookup, kind);
    lemma_lacking(found, kind);
    lemma_lacking(browser, kind);
    law_item_heads(state.globals, node, kind);
    law_item_heads(state.globals, lookup, kind);
    law_item_heads(with_item(state.globals, lookup), found, kind);
    law_item_heads(state.globals, browser, kind);
}

/// Whether a step adds no head of some function, and exposes others only.
pub open spec fn is_quiet(step: Step, kind: VectorKind) -> bool {
    match step {
        Step::Expose(helper) => helper.known() && helper != get_helper(kind),
        Step::Emit(text) => occurrences(text, reader_head(kind)) == 0,
        Step::Processor(name) => is_processor(name),
        _ => true,
    }
}

/// The functions that read items are those for the kinds of items.
proof fn lemma_reads(helper: Helper) -> (kind: VectorKind)
    requires
        helper.known(),
        helper.reads(),
    ensures
        helper == get_helper(kind),
{
    if helper is GetString {
        VectorKind::String
    } else if helper is GetArrayJsValue {
        VectorKind::Anyref
    } else if helper == get_helper(VectorKind::I8) {
        VectorKind::I8
    } else if helper == get_helper(VectorKind::U8) {
        VectorKind::U8
    } else if helper == get_helper(VectorKind::ClampedU8) {
        VectorKind::ClampedU8
    } else if helper == get_helper(VectorKind::I16) {
        VectorKind::I16
    } else if helper == get_helper(VectorKind::U16) {
        VectorKind::U16
    } else if helper == get_helper(VectorKind::I32) {
        VectorKind::I32
    } else if helper == get_helper(VectorKind::U32) {
        VectorKind::U32
    } else if helper == get_helper(VectorKind::I64) {
        VectorKind::I64
    } else if helper == get_helper(VectorKind::U64) {
        VectorKind::U64
    } else if helper == get_helper(VectorKind::F32) {
        VectorKind::F32
    } else {
        VectorKind::F64
    }
}

/// No helper uses a function that reads items, and each uses known ones.
proof fn lemma_uses(state: GlueView, helper: Helper, i: int)
    requires
        0 <= i < state.steps(helper).len(),
    ensures
        state.steps(helper)[i] matches Step::Expose(needed) ==> needed.known() && !needed.reads(),
        state.steps(helper)[i] matches Step::Processor(name) ==> is_processor(name),
        helper.reads() && state.steps(helper)[i] is Emit ==> (state.steps(helper)[i] == Step::Emit(
            match helper {
                Helper::GetArray { name, memory, size } => get_array(name, memory, size),
                Helper::GetString => get_string(state.memory_entry().limits.shared),
                _ => if state.config.anyref {
                    GET_ARRAY_JSVALUE_ANYREF@
                } else {
                    GET_ARRAY_JSVALUE_HEAP@
                },
            },
        )),
{
}

/// The steps of a helper are quiet, but for the one that writes the function itself.
proof fn lemma_steps_are_quiet(state: GlueView, helper: Helper, i: int, kind: VectorKind)
    requires
        helper.known(),
        0 <= i < state.steps(helper).len(),
        helper != get_helper(kind) || !(state.steps(helper)[i] is Emit),
    ensures
        is_quiet(state.steps(helper)[i], kind),
{
    lemma_uses(state, helper, i);
    if let Step::Emit(text) = state.steps(helper)[i] {
        if helper.reads() {
            let own = lemma_reads(helper);
            lemma_other(state, own, kind);
        } else {
            let names = Set::new(|name: Seq<char>| notes(state.steps(helper), name));
            lemma_emits(state, helper, i, names);
            lemma_lacking(text, kind);
        }
    }
}

/// Quiet steps add no head, and do not expose the function.
proof fn lemma_quiet(state: GlueView, layer: nat, steps: Seq<Step>, kind: VectorKind)
    requires
        state.open(),
        state.has_plain_processors(),
        forall|i: int| 0 <= i < steps.len() ==> is_quiet(#[trigger] steps[i], kind),
    ensures
        ({
            let after = state.perform(layer, steps).state;
            &&& after.open()
            &&& after.has_plain_processors()
            &&& occurrences(after.globals, reader_head(kind)) == occurrences(
                state.globals,
                reader_head(kind),
            )
            &&& after.is_exposed(get_helper(kind).key()) == state.is_exposed(
                get_helper(kind).key(),
            )
        }),
    decreases layer, steps.len(),
{
    lemma_perform(state, layer, steps);
    if steps.len() > 0 {
        let rest = steps.drop_last();
        let before = state.perform(layer, rest).state;
        assert forall|i: int| 0 <= i < rest.len() implies is_quiet(#[trigger] rest[i], kind) by {
            assert(rest[i] == steps[i]);
        }
        lemma_quiet(state, layer, rest, kind);
        let last = steps[steps.len() - 1];
        assert(is_quiet(last, kind));
        match last {
            Step::Expose(helper) => if helper.layer() < layer {
                lemma_other_helper(before, helper, kind);
            },
            Step::Emit(text) => law_item_heads(before.globals, text, kind),
            Step::Processor(name) => lemma_processor(before, name, kind),
            Step::ExportAnyrefTable => {
                reveal(GlueView::export_anyref_table);
            },
            Step::ExportFunctionTable => {
                reveal(GlueView::export_function_table);
            },
            Step::Require(_) => {},
        }
    }
}

/// Exposing another helper adds no head, and does not expose the function.
proof fn lemma_other_helper(state: GlueView, helper: Helper, kind: VectorKind)
    requires
        state.open(),
        state.has_plain_processors(),
        helper.known(),
        helper != get_helper(kind),
    ensures
        ({
            let after = state.expose(helper).state;
            &&& after.open()
            &&& after.has_plain_processors()
            &&& occurrences(after.globals, reader_head(kind)) == occurrences(
                state.globals,
                reader_head(kind),
            )
            &&& after.is_exposed(get_helper(kind).key()) == state.is_exposed(
                get_helper(kind).key(),
            )
        }),
    decreases helper.layer(), state.steps(helper).len() + 1,
{
    lemma_expose(state, helper);
    if !state.is_exposed(helper.key()) {
        law_keys_differ(helper, get_helper(kind));
        let steps = state.steps(helper);
        assert forall|i: int| 0 <= i < steps.len() implies is_quiet(#[trigger] steps[i], kind) by {
            lemma_steps_are_quiet(state, helper, i, kind);
        }
        lemma_quiet(state.mark(helper.key()), helper.layer(), steps, kind);
    }
}

impl Helper {
    /// Whether exposing the helper never fails.
    pub open spec fn is_sure(self) -> bool {
        ||| self is MemoryView
        ||| self is TextDecoder
        ||| self is AnyrefTable
        ||| self is Heap
        ||| self is HeapNext
        ||| self is GetObject
        ||| self is DropRef
        ||| self is TakeObject
    }
}

/// Whether a step never fails.
pub open spec fn is_sure_step(step: Step) -> bool {
    match step {
        Step::Expose(helper) => helper.is_sure(),
        Step::Require(_) => false,
        Step::ExportFunctionTable => false,
        _ => true,
    }
}

/// Such steps do not fail.
proof fn lemma_sure_steps(state: GlueView, layer: nat, steps: Seq<Step>)
    requires
        forall|i: int| 0 <= i < steps.len() ==> is_sure_step(#[trigger] steps[i]),
    ensures
        state.perform(layer, steps).result is Ok,
    decreases layer, steps.len(),
{
    lemma_perform(state, layer, steps);
    if steps.len() > 0 {
        let rest = steps.drop_last();
        assert forall|i: int| 0 <= i < rest.len() implies is_sure_step(#[trigger] rest[i]) by {
            assert(rest[i] == steps[i]);
        }
        lemma_sure_steps(state, layer, rest);
        assert(is_sure_step(steps[steps.len() - 1]));
        if let Step::Expose(helper) = steps.last() {
            if helper.layer() < layer {
                lemma_sure(state.perform(layer, rest).state, helper);
            }
        }
    }
}

/// Such helpers do not fail.
proof fn lemma_sure(state: GlueView, helper: Helper)
    requires
        helper.is_sure(),
    ensures
        state.expose(helper).result is Ok,
    decreases helper.layer(), state.steps(helper).len() + 1,
{
    lemma_expose(state, helper);
    let steps = state.steps(helper);
    assert forall|i: int| 0 <= i < steps.len() implies is_sure_step(#[trigger] steps[i]) by {}
    if !state.is_exposed(helper.key()) {
        lemma_sure_steps(state.mark(helper.key()), helper.layer(), steps);
    }
}

/// Exposing a function that reads items for the first time adds its head.
proof fn lemma_own_helper(state: GlueView, kind: VectorKind)
    requires
        state.open(),
        state.has_plain_processors(),
        !state.is_exposed(get_helper(kind).key()),
    ensures
        ({
            let after = state.expose(get_helper(kind)).state;
            &&& after.open()
            &&& after.has_plain_processors()
            &&& after.is_exposed(get_helper(kind).key())
            &&& occurrences(after.globals, reader_head(kind)) == occurrences(
                state.globals,
                reader_head(kind),
            ) + 1
        }),
{
    let helper = get_helper(kind);
    let layer = helper.layer();
    let steps = state.steps(helper);
    let marked = state.mark(helper.key());
    lemma_expose(state, helper);
    lemma_perform(marked, layer, steps);
    let written = if steps.last() is Require {
        steps.drop_last()
    } else {
        steps
    };
    lemma_perform(marked, layer, written);
    let before = written.drop_last();
    assert forall|i: int| 0 <= i < before.len() implies is_quiet(#[trigger] before[i], kind)
        && is_sure_step(before[i]) by {
        assert(before[i] == steps[i]);
        lemma_steps_are_quiet(state, helper, i, kind);
    }
    lemma_quiet(marked, layer, before, kind);
    lemma_sure_steps(marked, layer, before);
    assert(written.last() == Step::Emit(get_text(state, kind)));
    lemma_own(state, kind);
    law_item_heads(marked.perform(layer, before).state.globals, get_text(state, kind), kind);
}

/// Exposing a helper adds the head of a function that reads items where it exposes that function,
/// and otherwise none.
pub proof fn law_expose_heads(state: GlueView, helper: Helper, kind: VectorKind)
    requires
        state.open(),
        state.has_plain_processors(),
        helper.known(),
    ensures
        ({
            let after = state.expose(helper).state;
            let key = get_helper(kind).key();
            &&& after.open()
            &&& after.has_plain_processors()
            &&& occurrences(after.globals, reader_head(kind)) == occurrences(
                state.globals,
                reader_head(kind),
            ) + (if after.is_exposed(key) && !state.is_exposed(key) {
                1nat
            } else {
                0nat
            })
            &&& state.is_exposed(key) ==> after.is_exposed(key)
        }),
{
    if helper != get_helper(kind) {
        lemma_other_helper(state, helper, kind);
    } else if state.is_exposed(helper.key()) {
        lemma_expose(state, helper);
    } else {
        lemma_own_helper(state, kind);
    }
}

/// Performing steps that expose helpers adds the head of a function that reads items where they
/// expose that function, and otherwise none.
pub proof fn law_run_heads(state: GlueView, steps: Seq<Step>, kind: VectorKind)
    requires
        state.open(),
        state.has_plain_processors(),
        forall|i: int|
            0 <= i < steps.len() ==> (#[trigger] steps[i] matches Step::Expose(helper)
                && helper.known()),
    ensures
        ({
            let after = state.run(steps).state;
            let key = get_helper(kind).key();
            &&& after.open()
            &&& after.has_plain_processors()
            &&& occurrences(after.globals, reader_head(kind)) == occurrences(
                state.globals,
                reader_head(kind),
            ) + (if after.is_exposed(key) && !state.is_exposed(key) {
                1nat
            } else {
                0nat
            })
            &&& state.is_exposed(key) ==> after.is_exposed(key)
        }),
    decreases steps.len(),
{
    lemma_perform(state, top_layer(), steps);
    if steps.len() > 0 {
        let rest = steps.drop_last();
        assert forall|i: int| 0 <= i < rest.len() implies (#[trigger] rest[i] matches Step::Expose(
            helper,
        ) && helper.known()) by {
            assert(rest[i] == steps[i]);
        }
        law_run_heads(state, rest, kind);
        let last = steps[steps.len() - 1];
        law_expose_heads(state.run(rest).state, last->Expose_0, kind);
    }
}

impl Call {
    /// Whether a call asks for known helpers, if it asks for any, and for their texts too.
    pub open spec fn asks_for_known(self) -> bool {
        match self {
            Call::ShouldWrite { name } => false,
            Call::Expose { helper } => helper.known(),
            Call::Run { steps } => forall|i: int|
                0 <= i < steps.len() ==> (#[trigger] steps[i] matches Step::Expose(helper)
                    && helper.known()),
            _ => true,
        }
    }
}

/// Whether the texts that calls add, but for those of the helpers, hold no head of the function
/// that reads items of some kind.
pub open spec fn others_lack(state: GlueView, calls: Seq<Call>, kind: VectorKind) -> bool
    decreases calls.len(),
{
    calls.len() == 0 || {
        let before = state.after_all(calls.drop_last());
        &&& others_lack(state, calls.drop_last(), kind)
        &&& calls.last().asks_for_known()
        &&& !calls.last().exposes() ==> occurrences(
            before.after(calls.last()).globals,
            reader_head(kind),
        ) == occurrences(before.globals, reader_head(kind))
    }
}

/// A call that is made for an import leaves the local names of `TextEncoder` and `TextDecoder`
/// names.
proof fn lemma_import_plain(state: GlueView, call: Call)
    requires
        call is Import,
        state.has_plain_processors(),
    ensures
        state.after(call).has_plain_processors(),
{
    reveal(GlueView::after_texts);
    let after = state.after(call);
    assert forall|name: Seq<char>|
        is_processor(name) && #[trigger] after.imported.contains_key(
            of_util(name),
        ) implies !after.imported[of_util(name)].contains(')') by {
        if !state.imported.contains_key(of_util(name)) {
            lemma_processor_name(state.identifiers, name);
        }
    }
}

/// A call adds the head of a function that reads items where it exposes that function, and
/// otherwise none.
proof fn lemma_call_heads(state: GlueView, call: Call, kind: VectorKind)
    requires
        state.open(),
        state.has_plain_processors(),
        call.asks_for_known(),
        !call.exposes() ==> occurrences(state.after(call).globals, reader_head(kind))
            == occurrences(state.globals, reader_head(kind)),
    ensures
        ({
            let after = state.after(call);
            let key = get_helper(kind).key();
            &&& after.open()
            &&& after.has_plain_processors()
            &&& occurrences(after.globals, reader_head(kind)) == occurrences(
                state.globals,
                reader_head(kind),
            ) + (if after.is_exposed(key) && !state.is_exposed(key) {
                1nat
            } else {
                0nat
            })
            &&& state.is_exposed(key) ==> after.is_exposed(key)
        }),
{
    if call.exposes() {
        reveal(GlueView::after_helpers);
        match call {
            Call::Expose { helper } => law_expose_heads(state, helper, kind),
            Call::Run { steps } => law_run_heads(state, steps, kind),
            _ => {},
        }
    } else {
        law_call_exposes(state, call);
        reveal(GlueView::asked_in);
        assert(state.exposed->0.union(Set::empty()) =~= state.exposed->0);
        if call is Import {
            lemma_import_plain(state, call);
        } else {
            lemma_imports_stay(state, call);
        }
    }
}

/// Calls add the head of a function that reads items once, where they expose that function, and
/// otherwise not.
pub proof fn law_calls_heads(state: GlueView, calls: Seq<Call>, kind: VectorKind)
    requires
        state.open(),
        state.has_plain_processors(),
        others_lack(state, calls, kind),
    ensures
        ({
            let after = state.after_all(calls);
            let key = get_helper(kind).key();
            &&& after.open()
            &&& after.has_plain_processors()
            &&& occurrences(after.globals, reader_head(kind)) == occurrences(
                state.globals,
                reader_head(kind),
            ) + (if after.is_exposed(key) && !state.is_exposed(key) {
                1nat
            } else {
                0nat
            })
            &&& state.is_exposed(key) ==> after.is_exposed(key)
        }),
    decreases calls.len(),
{
    if calls.len() > 0 {
        let rest = calls.drop_last();
        law_calls_heads(state, rest, kind);
        lemma_call_heads(state.after_all(rest), calls.last(), kind);
    }
}

/// Over a run, up to its end, the head of a function that reads items stands in the glue exactly
/// once where the function was asked for, however often that was, and nowhere where it was not, as
/// long as the other texts do not hold it.
pub proof fn law_reader_stands_once(
    config: Bindgen,
    module: ModuleView,
    memory: usize,
    calls: Seq<Call>,
    kind: VectorKind,
)
    requires
        others_lack(GlueView::start(config, module, memory), calls, kind),
    ensures
        ({
            let start = GlueView::start(config, module, memory);
            occurrences(start.after_all(calls).globals, reader_head(kind)) == (if start.asked_in_all(
                calls,
            ).contains(get_helper(kind).key()) {
                1nat
            } else {
                0nat
            })
        }),
{
    let start = GlueView::start(config, module, memory);
    law_calls_heads(start, calls, kind);
    law_calls_expose(start, calls);
}

} // verus!
