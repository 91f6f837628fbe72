//! What stands in the texts of the helpers: the internal exports of the module that they call, and
//! the heads of the functions that read items.
//!
//! A helper that calls an internal export has to note it, or the export is removed in the end. And
//! of the heads, such as `function getStringFromWasm(ptr, len) {`, each stands in the text of its
//! own function alone; the proofs look for `en) `, which no other text holds. They go through the
//! texts character by character, so they repeat them.
use crate::config::{Bindgen, VectorKind};
use crate::context::GlueView;
use crate::helper_laws::{get_helper, get_text, law_requires_are_noted};
use crate::helpers::{
    add_heap_object, clamped_uint8_memory, f32_memory, f64_memory, get_array, get_array_f32,
    get_array_f64, get_array_i16, get_array_i32, get_array_i64, get_array_i8, get_array_u16,
    get_array_u32, get_array_u64, get_array_u8, get_clamped_array_u8, get_string, int16_memory,
    int32_memory, int64_memory, int8_memory, memory_view, node_buffer_memory, pass_array,
    pass_array16, pass_array32, pass_array64, pass_array8, pass_array_f32, pass_array_f64,
    pass_string, pass_string_node, pass_string_test, start_encoding, string_check, uint16_memory,
    uint32_memory, uint64_memory, uint8_memory, use_encode, use_encode_into, Helper, Step,
};
use crate::laws::law_required_stays;
use crate::snippets::{
    ADD_HEAP_OBJECT_0, ADD_HEAP_OBJECT_1, ADD_TO_ANYREF_TABLE, ARRAYGET_0, ARRAYGET_1, ARRAYGET_2,
    ARRAYGET_3, ARRAYGET_4, ASSERT_BOOL, ASSERT_CLASS, ASSERT_NUM, BORROWED_OBJECTS, DEBUG_STRING,
    DOES_NOT_EXIST, DROP_REF_0, DROP_REF_1, ENCODE_INTO_CHECK, GET_ARRAY_JSVALUE_ANYREF,
    GET_ARRAY_JSVALUE_HEAP, GET_INHERITED_DESCRIPTOR, GET_OBJECT, GET_STRING_0, GET_STRING_1,
    GLOBAL_ARGUMENT_PTR, HANDLE_ERROR_ANYREF, HANDLE_ERROR_HEAP, HEAP_0, HEAP_1, HEAP_CHECK,
    HEAP_FILL, HEAP_NEXT, HEAP_PUSH_0, HEAP_PUSH_1, INITIAL_HEAP_OFFSET, INITIAL_HEAP_VALUES,
    INITIAL_HEAP_VALUES_LEN, INT64_CVT_SHIM_0, INT64_CVT_SHIM_1, INT64_CVT_SHIM_2, IS_LIKE_NONE,
    MEMVIEW_0, MEMVIEW_1, MEMVIEW_2, MEMVIEW_3, MEMVIEW_4, MEMVIEW_5, MEMVIEW_6, MEMVIEW_7,
    MEMVIEW_8, MEMVIEW_9, PASS_ARRAY_0, PASS_ARRAY_1, PASS_ARRAY_2, PASS_ARRAY_3, PASS_ARRAY_4,
    PASS_ARRAY_JSVALUE_ANYREF, PASS_ARRAY_JSVALUE_HEAP, PASS_STRING_0, PASS_STRING_1,
    PASS_STRING_CHECK, PASS_STRING_NODE_0, PASS_STRING_NODE_1, PASS_STRING_TEST_0,
    PASS_STRING_TEST_1, PASS_STRING_TEST_2, STACK_POINTER_0, STACK_POINTER_1, START_ENCODING_0,
    START_ENCODING_1, TAKE_OBJECT, U32_CVT_SHIM_0, U32_CVT_SHIM_1, UINT64_CVT_SHIM_0,
    UINT64_CVT_SHIM_1, UINT64_CVT_SHIM_2, USE_ENCODE_0, USE_ENCODE_1, USE_ENCODE_INTO_0,
    USE_ENCODE_INTO_1, USE_ENCODE_INTO_2, WASM_VECTOR_LEN,
};
use crate::text::{decimal, lemma_digits};
use vstd::prelude::*;

verus! {

/// Whether a text names an internal export of the module at place `i`, behind a dot.
pub open spec fn internal_at(text: Seq<char>, i: int) -> bool {
    &&& 0 <= i && i + 6 <= text.len()
    &&& text[i] == '.' && text[i + 1] == '_' && text[i + 2] == '_'
    &&& text[i + 3] == 'w' && text[i + 4] == 'b' && text[i + 5] == 'i'
}

/// Whether a text calls an export of that name at place `i`, behind a dot.
pub open spec fn call_at(text: Seq<char>, i: int, name: Seq<char>) -> bool {
    &&& i + 1 + name.len() < text.len()
    &&& text.subrange(i + 1, i + 1 + name.len()) == name
    &&& text[i + 1 + name.len()] == '('
}

/// Whether a text names no internal exports but those, and only to call them.
pub open spec fn covered(text: Seq<char>, names: Set<Seq<char>>) -> bool {
    forall|i: int| #[trigger]
        internal_at(text, i) ==> exists|name: Seq<char>|
            names.contains(name) && #[trigger] call_at(text, i, name)
}

/// Whether steps note an internal export.
pub open spec fn notes(steps: Seq<Step>, name: Seq<char>) -> bool {
    exists|i: int| 0 <= i < steps.len() && #[trigger] steps[i] == Step::Require(name)
}

/// Whether `en) ` stands at place `i`, as it does in the head of a function that reads items.
pub open spec fn len_at(text: Seq<char>, i: int) -> bool {
    &&& 0 <= i && i + 4 <= text.len()
    &&& text[i] == 'e' && text[i + 1] == 'n' && text[i + 2] == ')' && text[i + 3] == ' '
}

/// Whether `en) ` stands nowhere in a text.
pub open spec fn lacks_len(text: Seq<char>) -> bool {
    forall|i: int| !#[trigger] len_at(text, i)
}

/// Whether `en) ` stands at one place of a text and nowhere else.
pub open spec fn len_only_at(text: Seq<char>, place: int) -> bool {
    forall|i: int| #[trigger] len_at(text, i) <==> i == place
}

/// Whether a character can stand before the last of those that are looked for.
spec fn dangling(c: char) -> bool {
    c == '.' || c == '_' || c == 'w' || c == 'b' || c == 'n' || c == ')'
}

/// Whether nothing that is looked for can go on behind a text, unless it begins with its last
/// character and that is an `e`.
spec fn closed(text: Seq<char>) -> bool {
    text.len() > 0 ==> !dangling(text.last())
}

/// Whether no `en) ` can begin with the last character of a text.
spec fn ended(text: Seq<char>) -> bool {
    text.len() > 0 ==> text.last() != 'e'
}

/// Whether no `en) ` can go on with the first character of a text.
spec fn opened(text: Seq<char>) -> bool {
    text.len() > 0 ==> text[0] != 'n'
}

/// Whether the first `n` characters of a text start no name of an internal export, but for the one
/// at `site`, and no `en) `, but for the one at `mark`.
spec fn plain(text: Seq<char>, n: nat, site: int, mark: int) -> bool
    decreases n,
{
    ||| n == 0
    ||| {
        &&& plain(text, (n - 1) as nat, site, mark)
        &&& n - 1 == site || !internal_at(text, n - 1)
        &&& n - 1 == mark || !len_at(text, n - 1)
    }
}

/// What is plain up to `n` is plain at each place before.
proof fn lemma_plain_at(text: Seq<char>, n: nat, site: int, mark: int, i: int)
    requires
        plain(text, n, site, mark),
        0 <= i < n,
    ensures
        i != site ==> !internal_at(text, i),
        i != mark ==> !len_at(text, i),
    decreases n,
{
    if i < n - 1 {
        lemma_plain_at(text, (n - 1) as nat, site, mark, i);
    }
}

/// A plain text names no internal export.
proof fn lemma_unmentioned(text: Seq<char>, mark: int, names: Set<Seq<char>>)
    requires
        plain(text, text.len(), -1, mark),
    ensures
        covered(text, names),
{
    assert forall|i: int| !#[trigger] internal_at(text, i) by {
        if 0 <= i < text.len() {
            lemma_plain_at(text, text.len(), -1, mark, i);
        }
    }
}

/// A plain text has `en) ` at no other place.
proof fn lemma_mark(text: Seq<char>, site: int, mark: int)
    requires
        plain(text, text.len(), site, mark),
        len_at(text, mark),
    ensures
        len_only_at(text, mark),
{
    assert forall|i: int| #[trigger] len_at(text, i) <==> i == mark by {
        if 0 <= i < text.len() {
            lemma_plain_at(text, text.len(), site, mark, i);
        }
    }
}

/// A plain text without `en) `.
proof fn lemma_unmarked(text: Seq<char>, site: int)
    requires
        plain(text, text.len(), site, -1),
    ensures
        lacks_len(text),
{
    assert forall|i: int| !#[trigger] len_at(text, i) by {
        if 0 <= i < text.len() {
            lemma_plain_at(text, text.len(), site, -1, i);
        }
    }
}

/// A plain text names no internal export and has no `en) `.
proof fn lemma_plain(text: Seq<char>, names: Set<Seq<char>>)
    requires
        plain(text, text.len(), -1, -1),
    ensures
        covered(text, names),
        lacks_len(text),
{
    lemma_unmentioned(text, -1, names);
    lemma_unmarked(text, -1);
}

/// A text that is plain but for one call calls that export only.
proof fn lemma_site(text: Seq<char>, site: int, mark: int, name: Seq<char>, names: Set<Seq<char>>)
    requires
        plain(text, text.len(), site, mark),
        call_at(text, site, name),
        names.contains(name),
    ensures
        covered(text, names),
        mark == -1 ==> lacks_len(text),
{
    assert forall|i: int| #[trigger] internal_at(text, i) implies exists|name: Seq<char>|
        names.contains(name) && #[trigger] call_at(text, i, name) by {
        if i != site {
            lemma_plain_at(text, text.len(), site, mark, i);
        }
    }
    if mark == -1 {
        lemma_unmarked(text, site);
    }
}

/// The empty text names nothing.
proof fn lemma_empty(names: Set<Seq<char>>)
    ensures
        covered(""@, names),
        closed(""@),
        ended(""@),
        opened(""@),
        lacks_len(""@),
{
    reveal_strlit("");
}

/// Whether no `en) ` can stand partly in one text and partly in the one behind it.
pub open spec fn apart(a: Seq<char>, b: Seq<char>) -> bool {
    a.len() > 0 && b.len() > 0 ==> {
        &&& !(a.last() == 'e' && b[0] == 'n')
        &&& !(a.last() == 'n' && b[0] == ')')
        &&& !(a.last() == ')' && b[0] == ' ')
    }
}

/// Where `en) ` stands in two texts behind each other.
pub proof fn lemma_len_join(a: Seq<char>, b: Seq<char>)
    requires
        apart(a, b),
    ensures
        lacks_len(a) && lacks_len(b) ==> lacks_len(a + b),
        forall|place: int| #[trigger]
            len_only_at(a, place) && lacks_len(b) ==> len_only_at(a + b, place),
        forall|place: int| lacks_len(a) && #[trigger] len_only_at(b, place) ==> len_only_at(
            a + b,
            a.len() + place,
        ),
{
    let t = a + b;
    let n = a.len() as int;
    assert forall|i: int| #[trigger] len_at(t, i) <==> len_at(a, i) || len_at(b, i - n) by {
        if n - 4 < i < n && len_at(t, i) {
            assert(a.last() == t[n - 1]);
            assert(b[0] == t[n]);
            assert(n - 1 == i || n - 1 == i + 1 || n - 1 == i + 2);
        }
    }
}

/// Two texts behind each other name what each of them does, where the name of an internal export
/// cannot go from one to the other.
proof fn lemma_join(a: Seq<char>, b: Seq<char>, names: Set<Seq<char>>)
    requires
        covered(a, names),
        covered(b, names),
        closed(a) || (b.len() > 0 && b[0] == 's'),
        ended(a) || opened(b),
    ensures
        covered(a + b, names),
        closed(b) && (b.len() > 0 || closed(a)) ==> closed(a + b),
        ended(b) && (b.len() > 0 || ended(a)) ==> ended(a + b),
        opened(a) && (a.len() > 0 || opened(b)) ==> opened(a + b),
        lacks_len(a) && lacks_len(b) ==> lacks_len(a + b),
        forall|place: int| #[trigger]
            len_only_at(a, place) && lacks_len(b) ==> len_only_at(a + b, place),
        forall|place: int| lacks_len(a) && #[trigger] len_only_at(b, place) ==> len_only_at(
            a + b,
            a.len() + place,
        ),
{
    let t = a + b;
    let n = a.len() as int;
    assert forall|i: int| #[trigger] internal_at(t, i) implies exists|name: Seq<char>|
        names.contains(name) && #[trigger] call_at(t, i, name) by {
        if i + 6 <= n {
            assert(internal_at(a, i));
            let name = choose|name: Seq<char>|
                names.contains(name) && #[trigger] call_at(a, i, name);
            assert(t.subrange(i + 1, i + 1 + name.len()) =~= a.subrange(i + 1, i + 1 + name.len()));
            assert(call_at(t, i, name));
        } else if i >= n {
            assert(internal_at(b, i - n));
            let name = choose|name: Seq<char>|
                names.contains(name) && #[trigger] call_at(b, i - n, name);
            assert(t.subrange(i + 1, i + 1 + name.len()) =~= b.subrange(
                i - n + 1,
                i - n + 1 + name.len(),
            ));
            assert(call_at(t, i, name));
        } else {
            assert(a.last() == t[n - 1]);
            assert(b[0] == t[n]);
            assert(n - 1 == i || n - 1 == i + 1 || n - 1 == i + 2 || n - 1 == i + 3 || n - 1 == i
                + 4);
        }
    }
    lemma_len_join(a, b);
    if b.len() > 0 {
        assert(t.last() == b.last());
    } else {
        assert(t =~= a);
    }
}

/// A number names nothing.
proof fn lemma_decimal(n: nat, names: Set<Seq<char>>)
    ensures
        covered(decimal(n), names),
        closed(decimal(n)),
        ended(decimal(n)),
        opened(decimal(n)),
        lacks_len(decimal(n)),
{
    lemma_digits(n);
    assert forall|i: int| !#[trigger] internal_at(decimal(n), i) by {
        if 0 <= i < decimal(n).len() {
            assert('0' <= decimal(n)[i] <= '9');
        }
    }
    assert forall|i: int| !#[trigger] len_at(decimal(n), i) by {
        if 0 <= i < decimal(n).len() {
            assert('0' <= decimal(n)[i] <= '9');
        }
    }
    assert('0' <= decimal(n)[0] <= '9');
    assert('0' <= decimal(n)[decimal(n).len() - 1] <= '9');
}

/// What is looked for, in `PASS_STRING_CHECK`.
proof fn lemma_pass_string_check(names: Set<Seq<char>>)
    ensures
        covered(PASS_STRING_CHECK@, names),
        closed(PASS_STRING_CHECK@),
        ended(PASS_STRING_CHECK@),
        opened(PASS_STRING_CHECK@),
        lacks_len(PASS_STRING_CHECK@),
{
    let text = PASS_STRING_CHECK@;
    reveal_strlit(
        "
                if (typeof(arg) !== 'string') throw new Error('expected a string argument');
            ",
    );
    reveal_with_fuel(plain, 45);
    assert(plain(text, 40, -1, -1));
    assert(plain(text, 80, -1, -1));
    assert(plain(text, 106, -1, -1));
    lemma_plain(text, names);
}

/// What is looked for, in `PASS_STRING_NODE_0`.
proof fn lemma_pass_string_node_0(names: Set<Seq<char>>)
    ensures
        covered(PASS_STRING_NODE_0@, names),
        closed(PASS_STRING_NODE_0@),
        ended(PASS_STRING_NODE_0@),
        opened(PASS_STRING_NODE_0@),
        lacks_len(PASS_STRING_NODE_0@),
{
    let text = PASS_STRING_NODE_0@;
    reveal_strlit(
        "
                    function passStringToWasm(arg) {
                        ",
    );
    reveal_with_fuel(plain, 45);
    assert(plain(text, 40, -1, -1));
    assert(plain(text, 78, -1, -1));
    lemma_plain(text, names);
}

/// What is looked for, in `PASS_STRING_NODE_1`.
proof fn lemma_pass_string_node_1(names: Set<Seq<char>>)
    requires
        names.contains("__wbindgen_malloc"@),
    ensures
        covered(PASS_STRING_NODE_1@, names),
        closed(PASS_STRING_NODE_1@),
        ended(PASS_STRING_NODE_1@),
        opened(PASS_STRING_NODE_1@),
        lacks_len(PASS_STRING_NODE_1@),
{
    let text = PASS_STRING_NODE_1@;
    reveal_strlit(
        "
                        const size = Buffer.byteLength(arg);
                        const ptr = wasm.__wbindgen_malloc(size);
                        getNodeBufferMemory().write(arg, ptr, size);
                        WASM_VECTOR_LEN = size;
                        return ptr;
                    }
                ",
    );
    reveal_with_fuel(plain, 45);
    assert(plain(text, 40, 102, -1));
    assert(plain(text, 80, 102, -1));
    assert(plain(text, 120, 102, -1));
    assert(plain(text, 160, 102, -1));
    assert(plain(text, 200, 102, -1));
    assert(plain(text, 240, 102, -1));
    assert(plain(text, 280, 102, -1));
    assert(plain(text, 319, 102, -1));
    reveal_strlit("__wbindgen_malloc");
    assert(text.subrange(103, 120) =~= "__wbindgen_malloc"@);
    lemma_site(text, 102, -1, "__wbindgen_malloc"@, names);
}

/// What is looked for, in `START_ENCODING_0`.
proof fn lemma_start_encoding_0(names: Set<Seq<char>>)
    ensures
        covered(START_ENCODING_0@, names),
        closed(START_ENCODING_0@),
        ended(START_ENCODING_0@),
        opened(START_ENCODING_0@),
        lacks_len(START_ENCODING_0@),
{
    let text = START_ENCODING_0@;
    reveal_strlit(
        "
                ",
    );
    reveal_with_fuel(plain, 22);
    assert(plain(text, 17, -1, -1));
    lemma_plain(text, names);
}

/// What is looked for, in `START_ENCODING_1`.
proof fn lemma_start_encoding_1(names: Set<Seq<char>>)
    requires
        names.contains("__wbindgen_malloc"@),
    ensures
        covered(START_ENCODING_1@, names),
        closed(START_ENCODING_1@),
        ended(START_ENCODING_1@),
        opened(START_ENCODING_1@),
        lacks_len(START_ENCODING_1@),
{
    let text = START_ENCODING_1@;
    reveal_strlit(
        "
                let size = arg.length;
                let ptr = wasm.__wbindgen_malloc(size);
                let offset = 0;
                {
                    const mem = getUint8Memory();
                    for (; offset < arg.length; offset++) {
                        const code = arg.charCodeAt(offset);
                        if (code > 0x7F) break;
                        mem[ptr + offset] = code;
                    }
                }
            ",
    );
    reveal_with_fuel(plain, 45);
    assert(plain(text, 40, 70, -1));
    assert(plain(text, 80, 70, -1));
    assert(plain(text, 120, 70, -1));
    assert(plain(text, 160, 70, -1));
    assert(plain(text, 200, 70, -1));
    assert(plain(text, 240, 70, -1));
    assert(plain(text, 280, 70, -1));
    assert(plain(text, 320, 70, -1));
    assert(plain(text, 360, 70, -1));
    assert(plain(text, 400, 70, -1));
    assert(plain(text, 440, 70, -1));
    assert(plain(text, 467, 70, -1));
    reveal_strlit("__wbindgen_malloc");
    assert(text.subrange(71, 88) =~= "__wbindgen_malloc"@);
    lemma_site(text, 70, -1, "__wbindgen_malloc"@, names);
}

/// What is looked for, in `USE_ENCODE_0`.
proof fn lemma_use_encode_0(names: Set<Seq<char>>)
    ensures
        covered(USE_ENCODE_0@, names),
        closed(USE_ENCODE_0@),
        ended(USE_ENCODE_0@),
        opened(USE_ENCODE_0@),
        lacks_len(USE_ENCODE_0@),
{
    let text = USE_ENCODE_0@;
    reveal_strlit(
        "
                ",
    );
    reveal_with_fuel(plain, 22);
    assert(plain(text, 17, -1, -1));
    lemma_plain(text, names);
}

/// What is looked for, in `USE_ENCODE_1`.
proof fn lemma_use_encode_1(names: Set<Seq<char>>)
    requires
        names.contains("__wbindgen_realloc"@),
    ensures
        covered(USE_ENCODE_1@, names),
        closed(USE_ENCODE_1@),
        ended(USE_ENCODE_1@),
        opened(USE_ENCODE_1@),
        lacks_len(USE_ENCODE_1@),
{
    let text = USE_ENCODE_1@;
    reveal_strlit(
        "
                if (offset !== arg.length) {
                    const buf = cachedTextEncoder.encode(arg.slice(offset));
                    ptr = wasm.__wbindgen_realloc(ptr, size, size = offset + buf.length);
                    getUint8Memory().set(buf, ptr + offset);
                    offset += buf.length;
                }
                WASM_VECTOR_LEN = offset;
                return ptr;
            ",
    );
    reveal_with_fuel(plain, 45);
    assert(plain(text, 40, 153, -1));
    assert(plain(text, 80, 153, -1));
    assert(plain(text, 120, 153, -1));
    assert(plain(text, 160, 153, -1));
    assert(plain(text, 200, 153, -1));
    assert(plain(text, 240, 153, -1));
    assert(plain(text, 280, 153, -1));
    assert(plain(text, 320, 153, -1));
    assert(plain(text, 360, 153, -1));
    assert(plain(text, 400, 153, -1));
    assert(plain(text, 416, 153, -1));
    reveal_strlit("__wbindgen_realloc");
    assert(text.subrange(154, 172) =~= "__wbindgen_realloc"@);
    lemma_site(text, 153, -1, "__wbindgen_realloc"@, names);
}

/// What is looked for, in `ENCODE_INTO_CHECK`.
proof fn lemma_encode_into_check(names: Set<Seq<char>>)
    ensures
        covered(ENCODE_INTO_CHECK@, names),
        closed(ENCODE_INTO_CHECK@),
        ended(ENCODE_INTO_CHECK@),
        opened(ENCODE_INTO_CHECK@),
        lacks_len(ENCODE_INTO_CHECK@),
{
    let text = ENCODE_INTO_CHECK@;
    reveal_strlit(
        "if (ret.read != arg.length) throw new Error('failed to pass whole string');",
    );
    reveal_with_fuel(plain, 45);
    assert(plain(text, 40, -1, -1));
    assert(plain(text, 75, -1, -1));
    lemma_plain(text, names);
}

/// What is looked for, in `USE_ENCODE_INTO_0`.
proof fn lemma_use_encode_into_0(names: Set<Seq<char>>)
    ensures
        covered(USE_ENCODE_INTO_0@, names),
        closed(USE_ENCODE_INTO_0@),
        ended(USE_ENCODE_INTO_0@),
        opened(USE_ENCODE_INTO_0@),
        lacks_len(USE_ENCODE_INTO_0@),
{
    let text = USE_ENCODE_INTO_0@;
    reveal_strlit(
        "
                ",
    );
    reveal_with_fuel(plain, 22);
    assert(plain(text, 17, -1, -1));
    lemma_plain(text, names);
}

/// What is looked for, in `USE_ENCODE_INTO_1`.
proof fn lemma_use_encode_into_1(names: Set<Seq<char>>)
    requires
        names.contains("__wbindgen_realloc"@),
    ensures
        covered(USE_ENCODE_INTO_1@, names),
        closed(USE_ENCODE_INTO_1@),
        ended(USE_ENCODE_INTO_1@),
        opened(USE_ENCODE_INTO_1@),
        lacks_len(USE_ENCODE_INTO_1@),
{
    let text = USE_ENCODE_INTO_1@;
    reveal_strlit(
        "
                if (offset !== arg.length) {
                    arg = arg.slice(offset);
                    ptr = wasm.__wbindgen_realloc(ptr, size, size = offset + arg.length * 3);
                    const view = getUint8Memory().subarray(ptr + offset, ptr + size);
                    const ret = cachedTextEncoder.encodeInto(arg, view);
                    ",
    );
    reveal_with_fuel(plain, 45);
    assert(plain(text, 40, 121, -1));
    assert(plain(text, 80, 121, -1));
    assert(plain(text, 120, 121, -1));
    assert(plain(text, 160, 121, -1));
    assert(plain(text, 200, 121, -1));
    assert(plain(text, 240, 121, -1));
    assert(plain(text, 280, 121, -1));
    assert(plain(text, 320, 121, -1));
    assert(plain(text, 360, 121, -1));
    assert(plain(text, 364, 121, -1));
    reveal_strlit("__wbindgen_realloc");
    assert(text.subrange(122, 140) =~= "__wbindgen_realloc"@);
    lemma_site(text, 121, -1, "__wbindgen_realloc"@, names);
}

/// What is looked for, in `USE_ENCODE_INTO_2`.
proof fn lemma_use_encode_into_2(names: Set<Seq<char>>)
    ensures
        covered(USE_ENCODE_INTO_2@, names),
        closed(USE_ENCODE_INTO_2@),
        ended(USE_ENCODE_INTO_2@),
        opened(USE_ENCODE_INTO_2@),
        lacks_len(USE_ENCODE_INTO_2@),
{
    let text = USE_ENCODE_INTO_2@;
    reveal_strlit(
        "
                    offset += ret.written;
                }
                WASM_VECTOR_LEN = offset;
                return ptr;
            ",
    );
    reveal_with_fuel(plain, 45);
    assert(plain(text, 40, -1, -1));
    assert(plain(text, 80, -1, -1));
    assert(plain(text, 120, -1, -1));
    assert(plain(text, 144, -1, -1));
    lemma_plain(text, names);
}

/// What is looked for, in `PASS_STRING_0`.
proof fn lemma_pass_string_0(names: Set<Seq<char>>)
    ensures
        covered(PASS_STRING_0@, names),
        closed(PASS_STRING_0@),
        ended(PASS_STRING_0@),
        opened(PASS_STRING_0@),
        lacks_len(PASS_STRING_0@),
{
    let text = PASS_STRING_0@;
    reveal_strlit(
        "function passStringToWasm(arg) { ",
    );
    reveal_with_fuel(plain, 38);
    assert(plain(text, 33, -1, -1));
    lemma_plain(text, names);
}

/// What is looked for, in `PASS_STRING_1`.
proof fn lemma_pass_string_1(names: Set<Seq<char>>)
    ensures
        covered(PASS_STRING_1@, names),
        closed(PASS_STRING_1@),
        ended(PASS_STRING_1@),
        opened(PASS_STRING_1@),
        lacks_len(PASS_STRING_1@),
{
    let text = PASS_STRING_1@;
    reveal_strlit(
        " }",
    );
    reveal_with_fuel(plain, 7);
    assert(plain(text, 2, -1, -1));
    lemma_plain(text, names);
}

/// What is looked for, in `PASS_STRING_TEST_0`.
proof fn lemma_pass_string_test_0(names: Set<Seq<char>>)
    ensures
        covered(PASS_STRING_TEST_0@, names),
        closed(PASS_STRING_TEST_0@),
        ended(PASS_STRING_TEST_0@),
        opened(PASS_STRING_TEST_0@),
        lacks_len(PASS_STRING_TEST_0@),
{
    let text = PASS_STRING_TEST_0@;
    reveal_strlit(
        "
                        let passStringToWasm;
                        if (typeof cachedTextEncoder.encodeInto === 'function') {
                            passStringToWasm = function(arg) { ",
    );
    reveal_with_fuel(plain, 45);
    assert(plain(text, 40, -1, -1));
    assert(plain(text, 80, -1, -1));
    assert(plain(text, 120, -1, -1));
    assert(plain(text, 160, -1, -1));
    assert(plain(text, 192, -1, -1));
    lemma_plain(text, names);
}

/// What is looked for, in `PASS_STRING_TEST_1`.
proof fn lemma_pass_string_test_1(names: Set<Seq<char>>)
    ensures
        covered(PASS_STRING_TEST_1@, names),
        closed(PASS_STRING_TEST_1@),
        ended(PASS_STRING_TEST_1@),
        opened(PASS_STRING_TEST_1@),
        lacks_len(PASS_STRING_TEST_1@),
{
    let text = PASS_STRING_TEST_1@;
    reveal_strlit(
        " };
                        } else {
                            passStringToWasm = function(arg) { ",
    );
    reveal_with_fuel(plain, 45);
    assert(plain(text, 40, -1, -1));
    assert(plain(text, 80, -1, -1));
    assert(plain(text, 100, -1, -1));
    lemma_plain(text, names);
}

/// What is looked for, in `PASS_STRING_TEST_2`.
proof fn lemma_pass_string_test_2(names: Set<Seq<char>>)
    ensures
        covered(PASS_STRING_TEST_2@, names),
        closed(PASS_STRING_TEST_2@),
        ended(PASS_STRING_TEST_2@),
        opened(PASS_STRING_TEST_2@),
        lacks_len(PASS_STRING_TEST_2@),
{
    let text = PASS_STRING_TEST_2@;
    reveal_strlit(
        " };
                        }
                    ",
    );
    reveal_with_fuel(plain, 45);
    assert(plain(text, 40, -1, -1));
    assert(plain(text, 50, -1, -1));
    lemma_plain(text, names);
}

/// What is looked for, in `PASS_ARRAY_0`.
proof fn lemma_pass_array_0(names: Set<Seq<char>>)
    ensures
        covered(PASS_ARRAY_0@, names),
        closed(PASS_ARRAY_0@),
        ended(PASS_ARRAY_0@),
        opened(PASS_ARRAY_0@),
        lacks_len(PASS_ARRAY_0@),
{
    let text = PASS_ARRAY_0@;
    reveal_strlit(
        "
            function ",
    );
    reveal_with_fuel(plain, 27);
    assert(plain(text, 22, -1, -1));
    lemma_plain(text, names);
}

/// What is looked for, in `PASS_ARRAY_1`.
proof fn lemma_pass_array_1(names: Set<Seq<char>>)
    requires
        names.contains("__wbindgen_malloc"@),
    ensures
        covered(PASS_ARRAY_1@, names),
        closed(PASS_ARRAY_1@),
        ended(PASS_ARRAY_1@),
        opened(PASS_ARRAY_1@),
        lacks_len(PASS_ARRAY_1@),
{
    let text = PASS_ARRAY_1@;
    reveal_strlit(
        "(arg) {
                const ptr = wasm.__wbindgen_malloc(arg.length * ",
    );
    reveal_with_fuel(plain, 45);
    assert(plain(text, 40, 40, -1));
    assert(plain(text, 72, 40, -1));
    reveal_strlit("__wbindgen_malloc");
    assert(text.subrange(41, 58) =~= "__wbindgen_malloc"@);
    lemma_site(text, 40, -1, "__wbindgen_malloc"@, names);
}

/// What is looked for, in `PASS_ARRAY_2`.
proof fn lemma_pass_array_2(names: Set<Seq<char>>)
    ensures
        covered(PASS_ARRAY_2@, names),
        closed(PASS_ARRAY_2@),
        ended(PASS_ARRAY_2@),
        opened(PASS_ARRAY_2@),
        lacks_len(PASS_ARRAY_2@),
{
    let text = PASS_ARRAY_2@;
    reveal_strlit(
        ");
                ",
    );
    reveal_with_fuel(plain, 24);
    assert(plain(text, 19, -1, -1));
    lemma_plain(text, names);
}

/// What is looked for, in `PASS_ARRAY_3`.
proof fn lemma_pass_array_3(names: Set<Seq<char>>)
    ensures
        covered(PASS_ARRAY_3@, names),
        closed(PASS_ARRAY_3@),
        ended(PASS_ARRAY_3@),
        opened(PASS_ARRAY_3@),
        lacks_len(PASS_ARRAY_3@),
{
    let text = PASS_ARRAY_3@;
    reveal_strlit(
        "().set(arg, ptr / ",
    );
    reveal_with_fuel(plain, 23);
    assert(plain(text, 18, -1, -1));
    lemma_plain(text, names);
}

/// What is looked for, in `PASS_ARRAY_4`.
proof fn lemma_pass_array_4(names: Set<Seq<char>>)
    ensures
        covered(PASS_ARRAY_4@, names),
        closed(PASS_ARRAY_4@),
        ended(PASS_ARRAY_4@),
        opened(PASS_ARRAY_4@),
        lacks_len(PASS_ARRAY_4@),
{
    let text = PASS_ARRAY_4@;
    reveal_strlit(
        ");
                WASM_VECTOR_LEN = arg.length;
                return ptr;
            }
            ",
    );
    reveal_with_fuel(plain, 45);
    assert(plain(text, 40, -1, -1));
    assert(plain(text, 80, -1, -1));
    assert(plain(text, 103, -1, -1));
    lemma_plain(text, names);
}

/// What is looked for, in `ARRAYGET_0`.
proof fn lemma_arrayget_0(names: Set<Seq<char>>)
    ensures
        covered(ARRAYGET_0@, names),
        closed(ARRAYGET_0@),
        ARRAYGET_0@.len() > 0,
        ended(ARRAYGET_0@),
        opened(ARRAYGET_0@),
        lacks_len(ARRAYGET_0@),
{
    let text = ARRAYGET_0@;
    reveal_strlit(
        "
            function ",
    );
    reveal_with_fuel(plain, 27);
    assert(plain(text, 22, -1, -1));
    lemma_plain(text, names);
}

/// What is looked for, in `ARRAYGET_1`.
proof fn lemma_arrayget_1(names: Set<Seq<char>>)
    ensures
        covered(ARRAYGET_1@, names),
        closed(ARRAYGET_1@),
        ended(ARRAYGET_1@),
        opened(ARRAYGET_1@),
        len_only_at(ARRAYGET_1@, 7),
{
    let text = ARRAYGET_1@;
    reveal_strlit(
        "(ptr, len) {
                return ",
    );
    reveal_with_fuel(plain, 41);
    assert(plain(text, 36, -1, 7));
    lemma_mark(text, -1, 7);
    lemma_unmentioned(text, 7, names);
}

/// What is looked for, in `ARRAYGET_2`.
proof fn lemma_arrayget_2(names: Set<Seq<char>>)
    ensures
        covered(ARRAYGET_2@, names),
        closed(ARRAYGET_2@),
        ended(ARRAYGET_2@),
        opened(ARRAYGET_2@),
        lacks_len(ARRAYGET_2@),
{
    let text = ARRAYGET_2@;
    reveal_strlit(
        "().subarray(ptr / ",
    );
    reveal_with_fuel(plain, 23);
    assert(plain(text, 18, -1, -1));
    lemma_plain(text, names);
}

/// What is looked for, in `ARRAYGET_3`.
proof fn lemma_arrayget_3(names: Set<Seq<char>>)
    ensures
        covered(ARRAYGET_3@, names),
        closed(ARRAYGET_3@),
        ended(ARRAYGET_3@),
        opened(ARRAYGET_3@),
        lacks_len(ARRAYGET_3@),
{
    let text = ARRAYGET_3@;
    reveal_strlit(
        ", ptr / ",
    );
    reveal_with_fuel(plain, 13);
    assert(plain(text, 8, -1, -1));
    lemma_plain(text, names);
}

/// What is looked for, in `ARRAYGET_4`.
proof fn lemma_arrayget_4(names: Set<Seq<char>>)
    ensures
        covered(ARRAYGET_4@, names),
        closed(ARRAYGET_4@),
        ended(ARRAYGET_4@),
        opened(ARRAYGET_4@),
        lacks_len(ARRAYGET_4@),
{
    let text = ARRAYGET_4@;
    reveal_strlit(
        " + len);
            }
            ",
    );
    reveal_with_fuel(plain, 40);
    assert(plain(text, 35, -1, -1));
    lemma_plain(text, names);
}

/// What is looked for, in `MEMVIEW_0`.
proof fn lemma_memview_0(names: Set<Seq<char>>)
    ensures
        covered(MEMVIEW_0@, names),
        closed(MEMVIEW_0@),
        MEMVIEW_0@.len() > 0,
        opened(MEMVIEW_0@),
        lacks_len(MEMVIEW_0@),
{
    let text = MEMVIEW_0@;
    reveal_strlit(
        "
            let cache",
    );
    reveal_with_fuel(plain, 27);
    assert(plain(text, 22, -1, -1));
    lemma_plain(text, names);
}

/// What is looked for, in `MEMVIEW_1`.
proof fn lemma_memview_1(names: Set<Seq<char>>)
    ensures
        covered(MEMVIEW_1@, names),
        closed(MEMVIEW_1@),
        MEMVIEW_1@.len() > 0,
        ended(MEMVIEW_1@),
        opened(MEMVIEW_1@),
        lacks_len(MEMVIEW_1@),
{
    let text = MEMVIEW_1@;
    reveal_strlit(
        " = null;
            function ",
    );
    reveal_with_fuel(plain, 35);
    assert(plain(text, 30, -1, -1));
    lemma_plain(text, names);
}

/// What is looked for, in `MEMVIEW_2`.
proof fn lemma_memview_2(names: Set<Seq<char>>)
    ensures
        covered(MEMVIEW_2@, names),
        closed(MEMVIEW_2@),
        MEMVIEW_2@.len() > 0,
        opened(MEMVIEW_2@),
        lacks_len(MEMVIEW_2@),
{
    let text = MEMVIEW_2@;
    reveal_strlit(
        "() {
                if (cache",
    );
    reveal_with_fuel(plain, 35);
    assert(plain(text, 30, -1, -1));
    lemma_plain(text, names);
}

/// What is looked for, in `MEMVIEW_3`.
proof fn lemma_memview_3(names: Set<Seq<char>>)
    ensures
        covered(MEMVIEW_3@, names),
        closed(MEMVIEW_3@),
        MEMVIEW_3@.len() > 0,
        opened(MEMVIEW_3@),
        lacks_len(MEMVIEW_3@),
{
    let text = MEMVIEW_3@;
    reveal_strlit(
        " === null || cache",
    );
    reveal_with_fuel(plain, 23);
    assert(plain(text, 18, -1, -1));
    lemma_plain(text, names);
}

/// What is looked for, in `MEMVIEW_4`.
proof fn lemma_memview_4(names: Set<Seq<char>>)
    ensures
        covered(MEMVIEW_4@, names),
        closed(MEMVIEW_4@),
        MEMVIEW_4@.len() > 0,
        ended(MEMVIEW_4@),
        opened(MEMVIEW_4@),
        lacks_len(MEMVIEW_4@),
{
    let text = MEMVIEW_4@;
    reveal_strlit(
        ".buffer !== ",
    );
    reveal_with_fuel(plain, 17);
    assert(plain(text, 12, -1, -1));
    lemma_plain(text, names);
}

/// What is looked for, in `MEMVIEW_5`.
proof fn lemma_memview_5(names: Set<Seq<char>>)
    ensures
        covered(MEMVIEW_5@, names),
        closed(MEMVIEW_5@),
        MEMVIEW_5@.len() > 0,
        opened(MEMVIEW_5@),
        lacks_len(MEMVIEW_5@),
{
    let text = MEMVIEW_5@;
    reveal_strlit(
        ".buffer) {
                    cache",
    );
    reveal_with_fuel(plain, 41);
    assert(plain(text, 36, -1, -1));
    lemma_plain(text, names);
}

/// What is looked for, in `MEMVIEW_6`.
proof fn lemma_memview_6(names: Set<Seq<char>>)
    ensures
        covered(MEMVIEW_6@, names),
        closed(MEMVIEW_6@),
        MEMVIEW_6@.len() > 0,
        ended(MEMVIEW_6@),
        opened(MEMVIEW_6@),
        lacks_len(MEMVIEW_6@),
{
    let text = MEMVIEW_6@;
    reveal_strlit(
        " = ",
    );
    reveal_with_fuel(plain, 8);
    assert(plain(text, 3, -1, -1));
    lemma_plain(text, names);
}

/// What is looked for, in `MEMVIEW_7`.
proof fn lemma_memview_7(names: Set<Seq<char>>)
    ensures
        covered(MEMVIEW_7@, names),
        closed(MEMVIEW_7@),
        MEMVIEW_7@.len() > 0,
        ended(MEMVIEW_7@),
        opened(MEMVIEW_7@),
        lacks_len(MEMVIEW_7@),
{
    let text = MEMVIEW_7@;
    reveal_strlit(
        "(",
    );
    reveal_with_fuel(plain, 6);
    assert(plain(text, 1, -1, -1));
    lemma_plain(text, names);
}

/// What is looked for, in `MEMVIEW_8`.
proof fn lemma_memview_8(names: Set<Seq<char>>)
    ensures
        covered(MEMVIEW_8@, names),
        closed(MEMVIEW_8@),
        MEMVIEW_8@.len() > 0,
        opened(MEMVIEW_8@),
        lacks_len(MEMVIEW_8@),
{
    let text = MEMVIEW_8@;
    reveal_strlit(
        ".buffer);
                }
                return cache",
    );
    reveal_with_fuel(plain, 45);
    assert(plain(text, 40, -1, -1));
    assert(plain(text, 56, -1, -1));
    lemma_plain(text, names);
}

/// What is looked for, in `MEMVIEW_9`.
proof fn lemma_memview_9(names: Set<Seq<char>>)
    ensures
        covered(MEMVIEW_9@, names),
        closed(MEMVIEW_9@),
        MEMVIEW_9@.len() > 0,
        ended(MEMVIEW_9@),
        opened(MEMVIEW_9@),
        lacks_len(MEMVIEW_9@),
{
    let text = MEMVIEW_9@;
    reveal_strlit(
        ";
            }
            ",
    );
    reveal_with_fuel(plain, 33);
    assert(plain(text, 28, -1, -1));
    lemma_plain(text, names);
}

/// What is looked for, in `HEAP_CHECK`.
proof fn lemma_heap_check(names: Set<Seq<char>>)
    ensures
        covered(HEAP_CHECK@, names),
        closed(HEAP_CHECK@),
        ended(HEAP_CHECK@),
        opened(HEAP_CHECK@),
        lacks_len(HEAP_CHECK@),
{
    let text = HEAP_CHECK@;
    reveal_strlit(
        "
                if (typeof(heap_next) !== 'number') throw new Error('corrupt heap');
                ",
    );
    reveal_with_fuel(plain, 45);
    assert(plain(text, 40, -1, -1));
    assert(plain(text, 80, -1, -1));
    assert(plain(text, 102, -1, -1));
    lemma_plain(text, names);
}

/// What is looked for, in `ADD_HEAP_OBJECT_0`.
proof fn lemma_add_heap_object_0(names: Set<Seq<char>>)
    ensures
        covered(ADD_HEAP_OBJECT_0@, names),
        closed(ADD_HEAP_OBJECT_0@),
        ended(ADD_HEAP_OBJECT_0@),
        opened(ADD_HEAP_OBJECT_0@),
        lacks_len(ADD_HEAP_OBJECT_0@),
{
    let text = ADD_HEAP_OBJECT_0@;
    reveal_strlit(
        "
            function addHeapObject(obj) {
                if (heap_next === heap.length) heap.push(heap.length + 1);
                const idx = heap_next;
                heap_next = heap[idx];
                ",
    );
    reveal_with_fuel(plain, 45);
    assert(plain(text, 40, -1, -1));
    assert(plain(text, 80, -1, -1));
    assert(plain(text, 120, -1, -1));
    assert(plain(text, 160, -1, -1));
    assert(plain(text, 200, -1, -1));
    assert(plain(text, 212, -1, -1));
    lemma_plain(text, names);
}

/// What is looked for, in `ADD_HEAP_OBJECT_1`.
proof fn lemma_add_heap_object_1(names: Set<Seq<char>>)
    ensures
        covered(ADD_HEAP_OBJECT_1@, names),
        closed(ADD_HEAP_OBJECT_1@),
        ended(ADD_HEAP_OBJECT_1@),
        opened(ADD_HEAP_OBJECT_1@),
        lacks_len(ADD_HEAP_OBJECT_1@),
{
    let text = ADD_HEAP_OBJECT_1@;
    reveal_strlit(
        "
                heap[idx] = obj;
                return idx;
            }
            ",
    );
    reveal_with_fuel(plain, 45);
    assert(plain(text, 40, -1, -1));
    assert(plain(text, 80, -1, -1));
    assert(plain(text, 88, -1, -1));
    lemma_plain(text, names);
}

/// What is looked for, in `GET_STRING_0`.
proof fn lemma_get_string_0(names: Set<Seq<char>>)
    ensures
        covered(GET_STRING_0@, names),
        GET_STRING_0@.len() > 0,
        ended(GET_STRING_0@),
        opened(GET_STRING_0@),
        len_only_at(GET_STRING_0@, 46),
{
    let text = GET_STRING_0@;
    reveal_strlit(
        "
            function getStringFromWasm(ptr, len) {
                return cachedTextDecoder.decode(getUint8Memory().",
    );
    reveal_with_fuel(plain, 45);
    assert(plain(text, 40, -1, 46));
    assert(plain(text, 80, -1, 46));
    assert(plain(text, 117, -1, 46));
    lemma_mark(text, -1, 46);
    lemma_unmentioned(text, 46, names);
}

/// What is looked for, in `GET_STRING_1`.
proof fn lemma_get_string_1(names: Set<Seq<char>>)
    ensures
        covered(GET_STRING_1@, names),
        closed(GET_STRING_1@),
        ended(GET_STRING_1@),
        opened(GET_STRING_1@),
        lacks_len(GET_STRING_1@),
{
    let text = GET_STRING_1@;
    reveal_strlit(
        "(ptr, ptr + len));
            }
        ",
    );
    reveal_with_fuel(plain, 45);
    assert(plain(text, 40, -1, -1));
    assert(plain(text, 41, -1, -1));
    lemma_plain(text, names);
}

/// What is looked for, in `DOES_NOT_EXIST`.
proof fn lemma_does_not_exist(names: Set<Seq<char>>)
    ensures
        covered(DOES_NOT_EXIST@, names),
        closed(DOES_NOT_EXIST@),
        ended(DOES_NOT_EXIST@),
        opened(DOES_NOT_EXIST@),
        lacks_len(DOES_NOT_EXIST@),
{
    let text = DOES_NOT_EXIST@;
    reveal_strlit(
        "
                function doesNotExist() {
                    throw new Error('imported function or type does not exist');
                }
            ",
    );
    reveal_with_fuel(plain, 45);
    assert(plain(text, 40, -1, -1));
    assert(plain(text, 80, -1, -1));
    assert(plain(text, 120, -1, -1));
    assert(plain(text, 154, -1, -1));
    lemma_plain(text, names);
}

/// What is looked for, in `ASSERT_NUM`.
proof fn lemma_assert_num(names: Set<Seq<char>>)
    ensures
        covered(ASSERT_NUM@, names),
        closed(ASSERT_NUM@),
        ended(ASSERT_NUM@),
        opened(ASSERT_NUM@),
        lacks_len(ASSERT_NUM@),
{
    let text = ASSERT_NUM@;
    reveal_strlit(
        "
            function _assertNum(n) {
                if (typeof(n) !== 'number') throw new Error('expected a number argument');
            }
            ",
    );
    reveal_with_fuel(plain, 45);
    assert(plain(text, 40, -1, -1));
    assert(plain(text, 80, -1, -1));
    assert(plain(text, 120, -1, -1));
    assert(plain(text, 155, -1, -1));
    lemma_plain(text, names);
}

/// What is looked for, in `ASSERT_BOOL`.
proof fn lemma_assert_bool(names: Set<Seq<char>>)
    ensures
        covered(ASSERT_BOOL@, names),
        closed(ASSERT_BOOL@),
        ended(ASSERT_BOOL@),
        opened(ASSERT_BOOL@),
        lacks_len(ASSERT_BOOL@),
{
    let text = ASSERT_BOOL@;
    reveal_strlit(
        "
            function _assertBoolean(n) {
                if (typeof(n) !== 'boolean') {
                    throw new Error('expected a boolean argument');
                }
            }
            ",
    );
    reveal_with_fuel(plain, 45);
    assert(plain(text, 40, -1, -1));
    assert(plain(text, 80, -1, -1));
    assert(plain(text, 120, -1, -1));
    assert(plain(text, 160, -1, -1));
    assert(plain(text, 200, -1, -1));
    assert(plain(text, 201, -1, -1));
    lemma_plain(text, names);
}

/// What is looked for, in `WASM_VECTOR_LEN`.
proof fn lemma_wasm_vector_len(names: Set<Seq<char>>)
    ensures
        covered(WASM_VECTOR_LEN@, names),
        closed(WASM_VECTOR_LEN@),
        ended(WASM_VECTOR_LEN@),
        opened(WASM_VECTOR_LEN@),
        lacks_len(WASM_VECTOR_LEN@),
{
    let text = WASM_VECTOR_LEN@;
    reveal_strlit(
        "let WASM_VECTOR_LEN = 0;",
    );
    reveal_with_fuel(plain, 29);
    assert(plain(text, 24, -1, -1));
    lemma_plain(text, names);
}

/// What is looked for, in `ASSERT_CLASS`.
proof fn lemma_assert_class(names: Set<Seq<char>>)
    ensures
        covered(ASSERT_CLASS@, names),
        closed(ASSERT_CLASS@),
        ended(ASSERT_CLASS@),
        opened(ASSERT_CLASS@),
        lacks_len(ASSERT_CLASS@),
{
    let text = ASSERT_CLASS@;
    reveal_strlit(
        "
            function _assertClass(instance, klass) {
                if (!(instance instanceof klass)) {
                    throw new Error(`expected instance of ${klass.name}`);
                }
                return instance.ptr;
            }
            ",
    );
    reveal_with_fuel(plain, 45);
    assert(plain(text, 40, -1, -1));
    assert(plain(text, 80, -1, -1));
    assert(plain(text, 120, -1, -1));
    assert(plain(text, 160, -1, -1));
    assert(plain(text, 200, -1, -1));
    assert(plain(text, 240, -1, -1));
    assert(plain(text, 262, -1, -1));
    lemma_plain(text, names);
}

/// What is looked for, in `GET_INHERITED_DESCRIPTOR`.
proof fn lemma_get_inherited_descriptor(names: Set<Seq<char>>)
    ensures
        covered(GET_INHERITED_DESCRIPTOR@, names),
        closed(GET_INHERITED_DESCRIPTOR@),
        ended(GET_INHERITED_DESCRIPTOR@),
        opened(GET_INHERITED_DESCRIPTOR@),
        lacks_len(GET_INHERITED_DESCRIPTOR@),
{
    let text = GET_INHERITED_DESCRIPTOR@;
    reveal_strlit(
        "
            function GetOwnOrInheritedPropertyDescriptor(obj, id) {
              while (obj) {
                let desc = Object.getOwnPropertyDescriptor(obj, id);
                if (desc) return desc;
                obj = Object.getPrototypeOf(obj);
              }
              return {}
            }
            ",
    );
    reveal_with_fuel(plain, 45);
    assert(plain(text, 40, -1, -1));
    assert(plain(text, 80, -1, -1));
    assert(plain(text, 120, -1, -1));
    assert(plain(text, 160, -1, -1));
    assert(plain(text, 200, -1, -1));
    assert(plain(text, 240, -1, -1));
    assert(plain(text, 280, -1, -1));
    assert(plain(text, 320, -1, -1));
    assert(plain(text, 321, -1, -1));
    lemma_plain(text, names);
}

/// What is looked for, in `IS_LIKE_NONE`.
proof fn lemma_is_like_none(names: Set<Seq<char>>)
    ensures
        covered(IS_LIKE_NONE@, names),
        closed(IS_LIKE_NONE@),
        ended(IS_LIKE_NONE@),
        opened(IS_LIKE_NONE@),
        lacks_len(IS_LIKE_NONE@),
{
    let text = IS_LIKE_NONE@;
    reveal_strlit(
        "
            function isLikeNone(x) {
                return x === undefined || x === null;
            }
        ",
    );
    reveal_with_fuel(plain, 45);
    assert(plain(text, 40, -1, -1));
    assert(plain(text, 80, -1, -1));
    assert(plain(text, 114, -1, -1));
    lemma_plain(text, names);
}

/// What is looked for, in `DEBUG_STRING`.
#[verifier::rlimit(100)]
proof fn lemma_debug_string(names: Set<Seq<char>>)
    ensures
        covered(DEBUG_STRING@, names),
        closed(DEBUG_STRING@),
        ended(DEBUG_STRING@),
        opened(DEBUG_STRING@),
        lacks_len(DEBUG_STRING@),
{
    let text = DEBUG_STRING@;
    reveal_strlit(
        "
           function debugString(val) {
                // primitive types
                const type = typeof val;
                if (type == 'number' || type == 'boolean' || val == null) {
                    return  `${val}`;
                }
                if (type == 'string') {
                    return `\"${val}\"`;
                }
                if (type == 'symbol') {
                    const description = val.description;
                    if (description == null) {
                        return 'Symbol';
                    } else {
                        return `Symbol(${description})`;
                    }
                }
                if (type == 'function') {
                    const name = val.name;
                    if (typeof name == 'string' && name.length > 0) {
                        return `Function(${name})`;
                    } else {
                        return 'Function';
                    }
                }
                // objects
                if (Array.isArray(val)) {
                    const length = val.length;
                    let debug = '[';
                    if (length > 0) {
                        debug += debugString(val[0]);
                    }
                    for(let i = 1; i < length; i++) {
                        debug += ', ' + debugString(val[i]);
                    }
                    debug += ']';
                    return debug;
                }
                // Test for built-in
                const builtInMatches = /\\[object ([^\\]]+)\\]/.exec(toString.call(val));
                let className;
                if (builtInMatches.length > 1) {
                    className = builtInMatches[1];
                } else {
                    // Failed to match the standard '[object ClassName]'
                    return toString.call(val);
                }
                if (className == 'Object') {
                    // we're a user defined class or Object
                    // JSON.stringify avoids problems with cycles, and is generally much
                    // easier than looping through ownProperties of `val`.
                    try {
                        return 'Object(' + JSON.stringify(val) + ')';
                    } catch (_) {
                        return 'Object';
                    }
                }
                // errors
                if (val instanceof Error) {
                    return `${val.name}: ${val.message}\\n${val.stack}`;
                }
                // TODO we could test for more things here, like `Set`s and `Map`s.
                return className;
            }
        ",
    );
    reveal_with_fuel(plain, 45);
    assert(plain(text, 40, -1, -1));
    assert(plain(text, 80, -1, -1));
    assert(plain(text, 120, -1, -1));
    assert(plain(text, 160, -1, -1));
    assert(plain(text, 200, -1, -1));
    assert(plain(text, 240, -1, -1));
    assert(plain(text, 280, -1, -1));
    assert(plain(text, 320, -1, -1));
    assert(plain(text, 360, -1, -1));
    assert(plain(text, 400, -1, -1));
    assert(plain(text, 440, -1, -1));
    assert(plain(text, 480, -1, -1));
    assert(plain(text, 520, -1, -1));
    assert(plain(text, 560, -1, -1));
    assert(plain(text, 600, -1, -1));
    assert(plain(text, 640, -1, -1));
    assert(plain(text, 680, -1, -1));
    assert(plain(text, 720, -1, -1));
    assert(plain(text, 760, -1, -1));
    assert(plain(text, 800, -1, -1));
    assert(plain(text, 840, -1, -1));
    assert(plain(text, 880, -1, -1));
    assert(plain(text, 920, -1, -1));
    assert(plain(text, 960, -1, -1));
    assert(plain(text, 1000, -1, -1));
    assert(plain(text, 1040, -1, -1));
    assert(plain(text, 1080, -1, -1));
    assert(plain(text, 1120, -1, -1));
    assert(plain(text, 1160, -1, -1));
    assert(plain(text, 1200, -1, -1));
    assert(plain(text, 1240, -1, -1));
    assert(plain(text, 1280, -1, -1));
    assert(plain(text, 1320, -1, -1));
    assert(plain(text, 1360, -1, -1));
    assert(plain(text, 1400, -1, -1));
    assert(plain(text, 1440, -1, -1));
    assert(plain(text, 1480, -1, -1));
    assert(plain(text, 1520, -1, -1));
    assert(plain(text, 1560, -1, -1));
    assert(plain(text, 1600, -1, -1));
    assert(plain(text, 1640, -1, -1));
    assert(plain(text, 1680, -1, -1));
    assert(plain(text, 1720, -1, -1));
    assert(plain(text, 1760, -1, -1));
    assert(plain(text, 1800, -1, -1));
    assert(plain(text, 1840, -1, -1));
    assert(plain(text, 1880, -1, -1));
    assert(plain(text, 1920, -1, -1));
    assert(plain(text, 1960, -1, -1));
    assert(plain(text, 2000, -1, -1));
    assert(plain(text, 2040, -1, -1));
    assert(plain(text, 2080, -1, -1));
    assert(plain(text, 2120, -1, -1));
    assert(plain(text, 2160, -1, -1));
    assert(plain(text, 2200, -1, -1));
    assert(plain(text, 2240, -1, -1));
    assert(plain(text, 2280, -1, -1));
    assert(plain(text, 2320, -1, -1));
    assert(plain(text, 2360, -1, -1));
    assert(plain(text, 2400, -1, -1));
    assert(plain(text, 2440, -1, -1));
    assert(plain(text, 2480, -1, -1));
    assert(plain(text, 2520, -1, -1));
    assert(plain(text, 2560, -1, -1));
    assert(plain(text, 2600, -1, -1));
    assert(plain(text, 2640, -1, -1));
    assert(plain(text, 2663, -1, -1));
    lemma_plain(text, names);
}

/// What is looked for, in `GLOBAL_ARGUMENT_PTR`.
proof fn lemma_global_argument_ptr(names: Set<Seq<char>>)
    requires
        names.contains("__wbindgen_global_argument_ptr"@),
    ensures
        covered(GLOBAL_ARGUMENT_PTR@, names),
        closed(GLOBAL_ARGUMENT_PTR@),
        ended(GLOBAL_ARGUMENT_PTR@),
        opened(GLOBAL_ARGUMENT_PTR@),
        lacks_len(GLOBAL_ARGUMENT_PTR@),
{
    let text = GLOBAL_ARGUMENT_PTR@;
    reveal_strlit(
        "
            let cachedGlobalArgumentPtr = null;
            function globalArgumentPtr() {
                if (cachedGlobalArgumentPtr === null) {
                    cachedGlobalArgumentPtr = wasm.__wbindgen_global_argument_ptr();
                }
                return cachedGlobalArgumentPtr;
            }
            ",
    );
    reveal_with_fuel(plain, 45);
    assert(plain(text, 40, 198, -1));
    assert(plain(text, 80, 198, -1));
    assert(plain(text, 120, 198, -1));
    assert(plain(text, 160, 198, -1));
    assert(plain(text, 200, 198, -1));
    assert(plain(text, 240, 198, -1));
    assert(plain(text, 280, 198, -1));
    assert(plain(text, 320, 198, -1));
    assert(plain(text, 325, 198, -1));
    reveal_strlit("__wbindgen_global_argument_ptr");
    assert(text.subrange(199, 229) =~= "__wbindgen_global_argument_ptr"@);
    lemma_site(text, 198, -1, "__wbindgen_global_argument_ptr"@, names);
}

/// What is looked for, in `ADD_TO_ANYREF_TABLE`.
proof fn lemma_add_to_anyref_table(names: Set<Seq<char>>)
    requires
        names.contains("__wbindgen_anyref_table_alloc"@),
    ensures
        covered(ADD_TO_ANYREF_TABLE@, names),
        closed(ADD_TO_ANYREF_TABLE@),
        ended(ADD_TO_ANYREF_TABLE@),
        opened(ADD_TO_ANYREF_TABLE@),
        lacks_len(ADD_TO_ANYREF_TABLE@),
{
    let text = ADD_TO_ANYREF_TABLE@;
    reveal_strlit(
        "
                function addToAnyrefTable(obj) {
                    const idx = wasm.__wbindgen_anyref_table_alloc();
                    wasm.__wbg_anyref_table.set(idx, obj);
                    return idx;
                }
            ",
    );
    reveal_with_fuel(plain, 45);
    assert(plain(text, 40, 86, -1));
    assert(plain(text, 80, 86, -1));
    assert(plain(text, 120, 86, -1));
    assert(plain(text, 160, 86, -1));
    assert(plain(text, 200, 86, -1));
    assert(plain(text, 240, 86, -1));
    assert(plain(text, 241, 86, -1));
    reveal_strlit("__wbindgen_anyref_table_alloc");
    assert(text.subrange(87, 116) =~= "__wbindgen_anyref_table_alloc"@);
    lemma_site(text, 86, -1, "__wbindgen_anyref_table_alloc"@, names);
}

/// What is looked for, in `HEAP_NEXT`.
proof fn lemma_heap_next(names: Set<Seq<char>>)
    ensures
        covered(HEAP_NEXT@, names),
        closed(HEAP_NEXT@),
        ended(HEAP_NEXT@),
        opened(HEAP_NEXT@),
        lacks_len(HEAP_NEXT@),
{
    let text = HEAP_NEXT@;
    reveal_strlit(
        "let heap_next = heap.length;",
    );
    reveal_with_fuel(plain, 33);
    assert(plain(text, 28, -1, -1));
    lemma_plain(text, names);
}

/// What is looked for, in `GET_OBJECT`.
proof fn lemma_get_object(names: Set<Seq<char>>)
    ensures
        covered(GET_OBJECT@, names),
        closed(GET_OBJECT@),
        ended(GET_OBJECT@),
        opened(GET_OBJECT@),
        lacks_len(GET_OBJECT@),
{
    let text = GET_OBJECT@;
    reveal_strlit(
        "function getObject(idx) { return heap[idx]; }",
    );
    reveal_with_fuel(plain, 45);
    assert(plain(text, 40, -1, -1));
    assert(plain(text, 45, -1, -1));
    lemma_plain(text, names);
}

/// What is looked for, in `BORROWED_OBJECTS`.
proof fn lemma_borrowed_objects(names: Set<Seq<char>>)
    ensures
        covered(BORROWED_OBJECTS@, names),
        closed(BORROWED_OBJECTS@),
        ended(BORROWED_OBJECTS@),
        opened(BORROWED_OBJECTS@),
        lacks_len(BORROWED_OBJECTS@),
{
    let text = BORROWED_OBJECTS@;
    reveal_strlit(
        "
            function addBorrowedObject(obj) {
                if (stack_pointer == 1) throw new Error('out of js stack');
                heap[--stack_pointer] = obj;
                return stack_pointer;
            }
            ",
    );
    reveal_with_fuel(plain, 45);
    assert(plain(text, 40, -1, -1));
    assert(plain(text, 80, -1, -1));
    assert(plain(text, 120, -1, -1));
    assert(plain(text, 160, -1, -1));
    assert(plain(text, 200, -1, -1));
    assert(plain(text, 232, -1, -1));
    lemma_plain(text, names);
}

/// What is looked for, in `TAKE_OBJECT`.
proof fn lemma_take_object(names: Set<Seq<char>>)
    ensures
        covered(TAKE_OBJECT@, names),
        closed(TAKE_OBJECT@),
        ended(TAKE_OBJECT@),
        opened(TAKE_OBJECT@),
        lacks_len(TAKE_OBJECT@),
{
    let text = TAKE_OBJECT@;
    reveal_strlit(
        "
            function takeObject(idx) {
                const ret = getObject(idx);
                dropObject(idx);
                return ret;
            }
            ",
    );
    reveal_with_fuel(plain, 45);
    assert(plain(text, 40, -1, -1));
    assert(plain(text, 80, -1, -1));
    assert(plain(text, 120, -1, -1));
    assert(plain(text, 160, -1, -1));
    assert(plain(text, 171, -1, -1));
    lemma_plain(text, names);
}

/// What is looked for, in `DROP_REF_0`.
proof fn lemma_drop_ref_0(names: Set<Seq<char>>)
    ensures
        covered(DROP_REF_0@, names),
        closed(DROP_REF_0@),
        ended(DROP_REF_0@),
        opened(DROP_REF_0@),
        lacks_len(DROP_REF_0@),
{
    let text = DROP_REF_0@;
    reveal_strlit(
        "
            function dropObject(idx) {
                if (idx < ",
    );
    reveal_with_fuel(plain, 45);
    assert(plain(text, 40, -1, -1));
    assert(plain(text, 66, -1, -1));
    lemma_plain(text, names);
}

/// What is looked for, in `DROP_REF_1`.
proof fn lemma_drop_ref_1(names: Set<Seq<char>>)
    ensures
        covered(DROP_REF_1@, names),
        closed(DROP_REF_1@),
        ended(DROP_REF_1@),
        opened(DROP_REF_1@),
        lacks_len(DROP_REF_1@),
{
    let text = DROP_REF_1@;
    reveal_strlit(
        ") return;
                heap[idx] = heap_next;
                heap_next = idx;
            }
            ",
    );
    reveal_with_fuel(plain, 45);
    assert(plain(text, 40, -1, -1));
    assert(plain(text, 80, -1, -1));
    assert(plain(text, 108, -1, -1));
    lemma_plain(text, names);
}

/// What is looked for, in `HEAP_0`.
proof fn lemma_heap_0(names: Set<Seq<char>>)
    ensures
        covered(HEAP_0@, names),
        closed(HEAP_0@),
        ended(HEAP_0@),
        opened(HEAP_0@),
        lacks_len(HEAP_0@),
{
    let text = HEAP_0@;
    reveal_strlit(
        "const heap = new Array(",
    );
    reveal_with_fuel(plain, 28);
    assert(plain(text, 23, -1, -1));
    lemma_plain(text, names);
}

/// What is looked for, in `HEAP_1`.
proof fn lemma_heap_1(names: Set<Seq<char>>)
    ensures
        covered(HEAP_1@, names),
        closed(HEAP_1@),
        ended(HEAP_1@),
        opened(HEAP_1@),
        lacks_len(HEAP_1@),
{
    let text = HEAP_1@;
    reveal_strlit(
        ");",
    );
    reveal_with_fuel(plain, 7);
    assert(plain(text, 2, -1, -1));
    lemma_plain(text, names);
}

/// What is looked for, in `HEAP_PUSH_0`.
proof fn lemma_heap_push_0(names: Set<Seq<char>>)
    ensures
        covered(HEAP_PUSH_0@, names),
        closed(HEAP_PUSH_0@),
        ended(HEAP_PUSH_0@),
        opened(HEAP_PUSH_0@),
        lacks_len(HEAP_PUSH_0@),
{
    let text = HEAP_PUSH_0@;
    reveal_strlit(
        "heap.push(",
    );
    reveal_with_fuel(plain, 15);
    assert(plain(text, 10, -1, -1));
    lemma_plain(text, names);
}

/// What is looked for, in `INITIAL_HEAP_VALUES`.
proof fn lemma_initial_heap_values(names: Set<Seq<char>>)
    ensures
        covered(INITIAL_HEAP_VALUES@, names),
        closed(INITIAL_HEAP_VALUES@),
        opened(INITIAL_HEAP_VALUES@),
        lacks_len(INITIAL_HEAP_VALUES@),
{
    let text = INITIAL_HEAP_VALUES@;
    reveal_strlit(
        "undefined, null, true, false",
    );
    reveal_with_fuel(plain, 33);
    assert(plain(text, 28, -1, -1));
    lemma_plain(text, names);
}

/// What is looked for, in `HEAP_PUSH_1`.
proof fn lemma_heap_push_1(names: Set<Seq<char>>)
    ensures
        covered(HEAP_PUSH_1@, names),
        closed(HEAP_PUSH_1@),
        ended(HEAP_PUSH_1@),
        opened(HEAP_PUSH_1@),
        lacks_len(HEAP_PUSH_1@),
{
    let text = HEAP_PUSH_1@;
    reveal_strlit(
        ");",
    );
    reveal_with_fuel(plain, 7);
    assert(plain(text, 2, -1, -1));
    lemma_plain(text, names);
}

/// What is looked for, in `HEAP_FILL`.
proof fn lemma_heap_fill(names: Set<Seq<char>>)
    ensures
        covered(HEAP_FILL@, names),
        closed(HEAP_FILL@),
        ended(HEAP_FILL@),
        opened(HEAP_FILL@),
        lacks_len(HEAP_FILL@),
{
    let text = HEAP_FILL@;
    reveal_strlit(
        "heap.fill(undefined);",
    );
    reveal_with_fuel(plain, 26);
    assert(plain(text, 21, -1, -1));
    lemma_plain(text, names);
}

/// What is looked for, in `STACK_POINTER_0`.
proof fn lemma_stack_pointer_0(names: Set<Seq<char>>)
    ensures
        covered(STACK_POINTER_0@, names),
        closed(STACK_POINTER_0@),
        ended(STACK_POINTER_0@),
        opened(STACK_POINTER_0@),
        lacks_len(STACK_POINTER_0@),
{
    let text = STACK_POINTER_0@;
    reveal_strlit(
        "let stack_pointer = ",
    );
    reveal_with_fuel(plain, 25);
    assert(plain(text, 20, -1, -1));
    lemma_plain(text, names);
}

/// What is looked for, in `STACK_POINTER_1`.
proof fn lemma_stack_pointer_1(names: Set<Seq<char>>)
    ensures
        covered(STACK_POINTER_1@, names),
        closed(STACK_POINTER_1@),
        ended(STACK_POINTER_1@),
        opened(STACK_POINTER_1@),
        lacks_len(STACK_POINTER_1@),
{
    let text = STACK_POINTER_1@;
    reveal_strlit(
        ";",
    );
    reveal_with_fuel(plain, 6);
    assert(plain(text, 1, -1, -1));
    lemma_plain(text, names);
}

/// What is looked for, in `PASS_ARRAY_JSVALUE_ANYREF`.
proof fn lemma_pass_array_jsvalue_anyref(names: Set<Seq<char>>)
    requires
        names.contains("__wbindgen_malloc"@),
    ensures
        covered(PASS_ARRAY_JSVALUE_ANYREF@, names),
        closed(PASS_ARRAY_JSVALUE_ANYREF@),
        ended(PASS_ARRAY_JSVALUE_ANYREF@),
        opened(PASS_ARRAY_JSVALUE_ANYREF@),
        lacks_len(PASS_ARRAY_JSVALUE_ANYREF@),
{
    let text = PASS_ARRAY_JSVALUE_ANYREF@;
    reveal_strlit(
        "
                function passArrayJsValueToWasm(array) {
                    const ptr = wasm.__wbindgen_malloc(array.length * 4);
                    const mem = getUint32Memory();
                    for (let i = 0; i < array.length; i++) {
                        mem[ptr / 4 + i] = addToAnyrefTable(array[i]);
                    }
                    WASM_VECTOR_LEN = array.length;
                    return ptr;
                }
            ",
    );
    reveal_with_fuel(plain, 45);
    assert(plain(text, 40, 94, -1));
    assert(plain(text, 80, 94, -1));
    assert(plain(text, 120, 94, -1));
    assert(plain(text, 160, 94, -1));
    assert(plain(text, 200, 94, -1));
    assert(plain(text, 240, 94, -1));
    assert(plain(text, 280, 94, -1));
    assert(plain(text, 320, 94, -1));
    assert(plain(text, 360, 94, -1));
    assert(plain(text, 400, 94, -1));
    assert(plain(text, 440, 94, -1));
    assert(plain(text, 451, 94, -1));
    reveal_strlit("__wbindgen_malloc");
    assert(text.subrange(95, 112) =~= "__wbindgen_malloc"@);
    lemma_site(text, 94, -1, "__wbindgen_malloc"@, names);
}

/// What is looked for, in `PASS_ARRAY_JSVALUE_HEAP`.
proof fn lemma_pass_array_jsvalue_heap(names: Set<Seq<char>>)
    requires
        names.contains("__wbindgen_malloc"@),
    ensures
        covered(PASS_ARRAY_JSVALUE_HEAP@, names),
        closed(PASS_ARRAY_JSVALUE_HEAP@),
        ended(PASS_ARRAY_JSVALUE_HEAP@),
        opened(PASS_ARRAY_JSVALUE_HEAP@),
        lacks_len(PASS_ARRAY_JSVALUE_HEAP@),
{
    let text = PASS_ARRAY_JSVALUE_HEAP@;
    reveal_strlit(
        "
                function passArrayJsValueToWasm(array) {
                    const ptr = wasm.__wbindgen_malloc(array.length * 4);
                    const mem = getUint32Memory();
                    for (let i = 0; i < array.length; i++) {
                        mem[ptr / 4 + i] = addHeapObject(array[i]);
                    }
                    WASM_VECTOR_LEN = array.length;
                    return ptr;
                }

            ",
    );
    reveal_with_fuel(plain, 45);
    assert(plain(text, 40, 94, -1));
    assert(plain(text, 80, 94, -1));
    assert(plain(text, 120, 94, -1));
    assert(plain(text, 160, 94, -1));
    assert(plain(text, 200, 94, -1));
    assert(plain(text, 240, 94, -1));
    assert(plain(text, 280, 94, -1));
    assert(plain(text, 320, 94, -1));
    assert(plain(text, 360, 94, -1));
    assert(plain(text, 400, 94, -1));
    assert(plain(text, 440, 94, -1));
    assert(plain(text, 449, 94, -1));
    reveal_strlit("__wbindgen_malloc");
    assert(text.subrange(95, 112) =~= "__wbindgen_malloc"@);
    lemma_site(text, 94, -1, "__wbindgen_malloc"@, names);
}

/// What is looked for, in `GET_ARRAY_JSVALUE_ANYREF`.
proof fn lemma_get_array_jsvalue_anyref(names: Set<Seq<char>>)
    requires
        names.contains("__wbindgen_drop_anyref_slice"@),
    ensures
        covered(GET_ARRAY_JSVALUE_ANYREF@, names),
        closed(GET_ARRAY_JSVALUE_ANYREF@),
        ended(GET_ARRAY_JSVALUE_ANYREF@),
        opened(GET_ARRAY_JSVALUE_ANYREF@),
        len_only_at(GET_ARRAY_JSVALUE_ANYREF@, 56),
{
    let text = GET_ARRAY_JSVALUE_ANYREF@;
    reveal_strlit(
        "
                function getArrayJsValueFromWasm(ptr, len) {
                    const mem = getUint32Memory();
                    const slice = mem.subarray(ptr / 4, ptr / 4 + len);
                    const result = [];
                    for (let i = 0; i < slice.length; i++) {
                        result.push(wasm.__wbg_anyref_table.get(slice[i]));
                    }
                    wasm.__wbindgen_drop_anyref_slice(ptr, len);
                    return result;
                }
                ",
    );
    reveal_with_fuel(plain, 45);
    assert(plain(text, 40, 407, 56));
    assert(plain(text, 80, 407, 56));
    assert(plain(text, 120, 407, 56));
    assert(plain(text, 160, 407, 56));
    assert(plain(text, 200, 407, 56));
    assert(plain(text, 240, 407, 56));
    assert(plain(text, 280, 407, 56));
    assert(plain(text, 320, 407, 56));
    assert(plain(text, 360, 407, 56));
    assert(plain(text, 400, 407, 56));
    assert(plain(text, 440, 407, 56));
    assert(plain(text, 480, 407, 56));
    assert(plain(text, 517, 407, 56));
    lemma_mark(text, 407, 56);
    reveal_strlit("__wbindgen_drop_anyref_slice");
    assert(text.subrange(408, 436) =~= "__wbindgen_drop_anyref_slice"@);
    lemma_site(text, 407, 56, "__wbindgen_drop_anyref_slice"@, names);
}

/// What is looked for, in `GET_ARRAY_JSVALUE_HEAP`.
proof fn lemma_get_array_jsvalue_heap(names: Set<Seq<char>>)
    ensures
        covered(GET_ARRAY_JSVALUE_HEAP@, names),
        closed(GET_ARRAY_JSVALUE_HEAP@),
        ended(GET_ARRAY_JSVALUE_HEAP@),
        opened(GET_ARRAY_JSVALUE_HEAP@),
        len_only_at(GET_ARRAY_JSVALUE_HEAP@, 56),
{
    let text = GET_ARRAY_JSVALUE_HEAP@;
    reveal_strlit(
        "
                function getArrayJsValueFromWasm(ptr, len) {
                    const mem = getUint32Memory();
                    const slice = mem.subarray(ptr / 4, ptr / 4 + len);
                    const result = [];
                    for (let i = 0; i < slice.length; i++) {
                        result.push(takeObject(slice[i]));
                    }
                    return result;
                }
                ",
    );
    reveal_with_fuel(plain, 45);
    assert(plain(text, 40, -1, 56));
    assert(plain(text, 80, -1, 56));
    assert(plain(text, 120, -1, 56));
    assert(plain(text, 160, -1, 56));
    assert(plain(text, 200, -1, 56));
    assert(plain(text, 240, -1, 56));
    assert(plain(text, 280, -1, 56));
    assert(plain(text, 320, -1, 56));
    assert(plain(text, 360, -1, 56));
    assert(plain(text, 400, -1, 56));
    assert(plain(text, 435, -1, 56));
    lemma_mark(text, -1, 56);
    lemma_unmentioned(text, 56, names);
}

/// What is looked for, in `HANDLE_ERROR_ANYREF`.
proof fn lemma_handle_error_anyref(names: Set<Seq<char>>)
    ensures
        covered(HANDLE_ERROR_ANYREF@, names),
        closed(HANDLE_ERROR_ANYREF@),
        ended(HANDLE_ERROR_ANYREF@),
        opened(HANDLE_ERROR_ANYREF@),
        lacks_len(HANDLE_ERROR_ANYREF@),
{
    let text = HANDLE_ERROR_ANYREF@;
    reveal_strlit(
        "
                function handleError(exnptr, e) {
                    const idx = addToAnyrefTable(e);
                    const view = getUint32Memory();
                    view[exnptr / 4] = 1;
                    view[exnptr / 4 + 1] = idx;
                }
                ",
    );
    reveal_with_fuel(plain, 45);
    assert(plain(text, 40, -1, -1));
    assert(plain(text, 80, -1, -1));
    assert(plain(text, 120, -1, -1));
    assert(plain(text, 160, -1, -1));
    assert(plain(text, 200, -1, -1));
    assert(plain(text, 240, -1, -1));
    assert(plain(text, 280, -1, -1));
    lemma_plain(text, names);
}

/// What is looked for, in `HANDLE_ERROR_HEAP`.
proof fn lemma_handle_error_heap(names: Set<Seq<char>>)
    ensures
        covered(HANDLE_ERROR_HEAP@, names),
        closed(HANDLE_ERROR_HEAP@),
        ended(HANDLE_ERROR_HEAP@),
        opened(HANDLE_ERROR_HEAP@),
        lacks_len(HANDLE_ERROR_HEAP@),
{
    let text = HANDLE_ERROR_HEAP@;
    reveal_strlit(
        "
                function handleError(exnptr, e) {
                    const view = getUint32Memory();
                    view[exnptr / 4] = 1;
                    view[exnptr / 4 + 1] = addHeapObject(e);
                }
                ",
    );
    reveal_with_fuel(plain, 45);
    assert(plain(text, 40, -1, -1));
    assert(plain(text, 80, -1, -1));
    assert(plain(text, 120, -1, -1));
    assert(plain(text, 160, -1, -1));
    assert(plain(text, 200, -1, -1));
    assert(plain(text, 240, -1, -1));
    lemma_plain(text, names);
}

/// What is looked for, in `U32_CVT_SHIM_0`.
proof fn lemma_u32_cvt_shim_0(names: Set<Seq<char>>)
    ensures
        covered(U32_CVT_SHIM_0@, names),
        closed(U32_CVT_SHIM_0@),
        ended(U32_CVT_SHIM_0@),
        opened(U32_CVT_SHIM_0@),
        lacks_len(U32_CVT_SHIM_0@),
{
    let text = U32_CVT_SHIM_0@;
    reveal_strlit(
        "const ",
    );
    reveal_with_fuel(plain, 11);
    assert(plain(text, 6, -1, -1));
    lemma_plain(text, names);
}

/// What is looked for, in `U32_CVT_SHIM_1`.
proof fn lemma_u32_cvt_shim_1(names: Set<Seq<char>>)
    ensures
        covered(U32_CVT_SHIM_1@, names),
        closed(U32_CVT_SHIM_1@),
        ended(U32_CVT_SHIM_1@),
        opened(U32_CVT_SHIM_1@),
        lacks_len(U32_CVT_SHIM_1@),
{
    let text = U32_CVT_SHIM_1@;
    reveal_strlit(
        " = new Uint32Array(2);",
    );
    reveal_with_fuel(plain, 27);
    assert(plain(text, 22, -1, -1));
    lemma_plain(text, names);
}

/// What is looked for, in `INT64_CVT_SHIM_0`.
proof fn lemma_int64_cvt_shim_0(names: Set<Seq<char>>)
    ensures
        covered(INT64_CVT_SHIM_0@, names),
        closed(INT64_CVT_SHIM_0@),
        ended(INT64_CVT_SHIM_0@),
        opened(INT64_CVT_SHIM_0@),
        lacks_len(INT64_CVT_SHIM_0@),
{
    let text = INT64_CVT_SHIM_0@;
    reveal_strlit(
        "const ",
    );
    reveal_with_fuel(plain, 11);
    assert(plain(text, 6, -1, -1));
    lemma_plain(text, names);
}

/// What is looked for, in `INT64_CVT_SHIM_1`.
proof fn lemma_int64_cvt_shim_1(names: Set<Seq<char>>)
    ensures
        covered(INT64_CVT_SHIM_1@, names),
        closed(INT64_CVT_SHIM_1@),
        ended(INT64_CVT_SHIM_1@),
        opened(INT64_CVT_SHIM_1@),
        lacks_len(INT64_CVT_SHIM_1@),
{
    let text = INT64_CVT_SHIM_1@;
    reveal_strlit(
        " = new BigInt64Array(",
    );
    reveal_with_fuel(plain, 26);
    assert(plain(text, 21, -1, -1));
    lemma_plain(text, names);
}

/// What is looked for, in `INT64_CVT_SHIM_2`.
proof fn lemma_int64_cvt_shim_2(names: Set<Seq<char>>)
    ensures
        covered(INT64_CVT_SHIM_2@, names),
        closed(INT64_CVT_SHIM_2@),
        ended(INT64_CVT_SHIM_2@),
        opened(INT64_CVT_SHIM_2@),
        lacks_len(INT64_CVT_SHIM_2@),
{
    let text = INT64_CVT_SHIM_2@;
    reveal_strlit(
        ".buffer);",
    );
    reveal_with_fuel(plain, 14);
    assert(plain(text, 9, -1, -1));
    lemma_plain(text, names);
}

/// What is looked for, in `UINT64_CVT_SHIM_0`.
proof fn lemma_uint64_cvt_shim_0(names: Set<Seq<char>>)
    ensures
        covered(UINT64_CVT_SHIM_0@, names),
        closed(UINT64_CVT_SHIM_0@),
        ended(UINT64_CVT_SHIM_0@),
        opened(UINT64_CVT_SHIM_0@),
        lacks_len(UINT64_CVT_SHIM_0@),
{
    let text = UINT64_CVT_SHIM_0@;
    reveal_strlit(
        "const ",
    );
    reveal_with_fuel(plain, 11);
    assert(plain(text, 6, -1, -1));
    lemma_plain(text, names);
}

/// What is looked for, in `UINT64_CVT_SHIM_1`.
proof fn lemma_uint64_cvt_shim_1(names: Set<Seq<char>>)
    ensures
        covered(UINT64_CVT_SHIM_1@, names),
        closed(UINT64_CVT_SHIM_1@),
        ended(UINT64_CVT_SHIM_1@),
        opened(UINT64_CVT_SHIM_1@),
        lacks_len(UINT64_CVT_SHIM_1@),
{
    let text = UINT64_CVT_SHIM_1@;
    reveal_strlit(
        " = new BigUint64Array(",
    );
    reveal_with_fuel(plain, 27);
    assert(plain(text, 22, -1, -1));
    lemma_plain(text, names);
}

/// What is looked for, in `UINT64_CVT_SHIM_2`.
proof fn lemma_uint64_cvt_shim_2(names: Set<Seq<char>>)
    ensures
        covered(UINT64_CVT_SHIM_2@, names),
        closed(UINT64_CVT_SHIM_2@),
        ended(UINT64_CVT_SHIM_2@),
        opened(UINT64_CVT_SHIM_2@),
        lacks_len(UINT64_CVT_SHIM_2@),
{
    let text = UINT64_CVT_SHIM_2@;
    reveal_strlit(
        ".buffer);",
    );
    reveal_with_fuel(plain, 14);
    assert(plain(text, 9, -1, -1));
    lemma_plain(text, names);
}

/// What is looked for, in the check that a string is passed.
proof fn lemma_string_check(config: Bindgen, names: Set<Seq<char>>)
    ensures
        covered(string_check(config), names),
        closed(string_check(config)),
        ended(string_check(config)),
        opened(string_check(config)),
        lacks_len(string_check(config)),
{
    lemma_pass_string_check(names);
    lemma_empty(names);
}

/// What is looked for, in what passes a string on Node.js.
proof fn lemma_pass_string_node(config: Bindgen, names: Set<Seq<char>>)
    requires
        names.contains("__wbindgen_malloc"@),
    ensures
        covered(pass_string_node(config), names),
        closed(pass_string_node(config)),
        ended(pass_string_node(config)),
        opened(pass_string_node(config)),
        lacks_len(pass_string_node(config)),
{
    lemma_pass_string_node_0(names);
    lemma_string_check(config, names);
    lemma_pass_string_node_1(names);
    lemma_join(PASS_STRING_NODE_0@, string_check(config), names);
    let t0 = PASS_STRING_NODE_0@ + string_check(config);
    lemma_join(t0, PASS_STRING_NODE_1@, names);
}

/// What is looked for, in what writes ASCII characters.
proof fn lemma_start_encoding(config: Bindgen, names: Set<Seq<char>>)
    requires
        names.contains("__wbindgen_malloc"@),
    ensures
        covered(start_encoding(config), names),
        closed(start_encoding(config)),
        ended(start_encoding(config)),
        opened(start_encoding(config)),
        lacks_len(start_encoding(config)),
{
    lemma_start_encoding_0(names);
    lemma_string_check(config, names);
    lemma_start_encoding_1(names);
    lemma_join(START_ENCODING_0@, string_check(config), names);
    let t0 = START_ENCODING_0@ + string_check(config);
    lemma_join(t0, START_ENCODING_1@, names);
}

/// What is looked for, in what passes a string by `encode`.
proof fn lemma_use_encode(config: Bindgen, names: Set<Seq<char>>)
    requires
        names.contains("__wbindgen_malloc"@),
        names.contains("__wbindgen_realloc"@),
    ensures
        covered(use_encode(config), names),
        closed(use_encode(config)),
        ended(use_encode(config)),
        opened(use_encode(config)),
        lacks_len(use_encode(config)),
{
    lemma_use_encode_0(names);
    lemma_start_encoding(config, names);
    lemma_use_encode_1(names);
    lemma_join(USE_ENCODE_0@, start_encoding(config), names);
    let t0 = USE_ENCODE_0@ + start_encoding(config);
    lemma_join(t0, USE_ENCODE_1@, names);
}

/// What is looked for, in what passes a string by `encodeInto`.
proof fn lemma_use_encode_into(config: Bindgen, names: Set<Seq<char>>)
    requires
        names.contains("__wbindgen_malloc"@),
        names.contains("__wbindgen_realloc"@),
    ensures
        covered(use_encode_into(config), names),
        closed(use_encode_into(config)),
        ended(use_encode_into(config)),
        opened(use_encode_into(config)),
        lacks_len(use_encode_into(config)),
{
    let check = if config.debug {
        ENCODE_INTO_CHECK@
    } else {
        ""@
    };
    lemma_encode_into_check(names);
    lemma_empty(names);
    lemma_use_encode_into_0(names);
    lemma_start_encoding(config, names);
    lemma_use_encode_into_1(names);
    lemma_use_encode_into_2(names);
    lemma_join(USE_ENCODE_INTO_0@, start_encoding(config), names);
    let t0 = USE_ENCODE_INTO_0@ + start_encoding(config);
    lemma_join(t0, USE_ENCODE_INTO_1@, names);
    let t1 = t0 + USE_ENCODE_INTO_1@;
    lemma_join(t1, check, names);
    let t2 = t1 + check;
    lemma_join(t2, USE_ENCODE_INTO_2@, names);
}

/// What is looked for, in a function that passes a string.
proof fn lemma_pass_string(body: Seq<char>, names: Set<Seq<char>>)
    requires
        covered(body, names),
        closed(body),
        ended(body),
        opened(body),
        lacks_len(body),
    ensures
        covered(pass_string(body), names),
        closed(pass_string(body)),
        ended(pass_string(body)),
        opened(pass_string(body)),
        lacks_len(pass_string(body)),
{
    lemma_pass_string_0(names);
    lemma_pass_string_1(names);
    lemma_join(PASS_STRING_0@, body, names);
    let t0 = PASS_STRING_0@ + body;
    lemma_join(t0, PASS_STRING_1@, names);
}

/// What is looked for, in what passes a string in one way or the other.
proof fn lemma_pass_string_test(config: Bindgen, names: Set<Seq<char>>)
    requires
        names.contains("__wbindgen_malloc"@),
        names.contains("__wbindgen_realloc"@),
    ensures
        covered(pass_string_test(config), names),
        closed(pass_string_test(config)),
        ended(pass_string_test(config)),
        opened(pass_string_test(config)),
        lacks_len(pass_string_test(config)),
{
    lemma_pass_string_test_0(names);
    lemma_use_encode_into(config, names);
    lemma_pass_string_test_1(names);
    lemma_use_encode(config, names);
    lemma_pass_string_test_2(names);
    lemma_join(PASS_STRING_TEST_0@, use_encode_into(config), names);
    let t0 = PASS_STRING_TEST_0@ + use_encode_into(config);
    lemma_join(t0, PASS_STRING_TEST_1@, names);
    let t1 = t0 + PASS_STRING_TEST_1@;
    lemma_join(t1, use_encode(config), names);
    let t2 = t1 + use_encode(config);
    lemma_join(t2, PASS_STRING_TEST_2@, names);
}

/// What is looked for, in what passes a typed array.
proof fn lemma_pass_array(name: Seq<char>, delegate: Seq<char>, size: nat, names: Set<Seq<char>>)
    requires
        names.contains("__wbindgen_malloc"@),
        covered(name, names),
        closed(name),
        ended(name),
        opened(name),
        lacks_len(name),
        covered(delegate, names),
        closed(delegate),
        ended(delegate),
        opened(delegate),
        lacks_len(delegate),
    ensures
        covered(pass_array(name, delegate, size), names),
        closed(pass_array(name, delegate, size)),
        ended(pass_array(name, delegate, size)),
        opened(pass_array(name, delegate, size)),
        lacks_len(pass_array(name, delegate, size)),
{
    lemma_pass_array_0(names);
    lemma_pass_array_1(names);
    lemma_decimal(size, names);
    lemma_pass_array_2(names);
    lemma_pass_array_3(names);
    lemma_pass_array_4(names);
    lemma_join(PASS_ARRAY_0@, name, names);
    let t0 = PASS_ARRAY_0@ + name;
    lemma_join(t0, PASS_ARRAY_1@, names);
    let t1 = t0 + PASS_ARRAY_1@;
    lemma_join(t1, decimal(size), names);
    let t2 = t1 + decimal(size);
    lemma_join(t2, PASS_ARRAY_2@, names);
    let t3 = t2 + PASS_ARRAY_2@;
    lemma_join(t3, delegate, names);
    let t4 = t3 + delegate;
    lemma_join(t4, PASS_ARRAY_3@, names);
    let t5 = t4 + PASS_ARRAY_3@;
    lemma_join(t5, decimal(size), names);
    let t6 = t5 + decimal(size);
    lemma_join(t6, PASS_ARRAY_4@, names);
}

/// What is looked for, in what reads a typed array.
proof fn lemma_get_array(name: Seq<char>, memory: Seq<char>, size: nat, names: Set<Seq<char>>)
    requires
        covered(name, names),
        closed(name),
        ended(name),
        opened(name),
        lacks_len(name),
        covered(memory, names),
        closed(memory),
        ended(memory),
        opened(memory),
        lacks_len(memory),
    ensures
        covered(get_array(name, memory, size), names),
        closed(get_array(name, memory, size)),
        ended(get_array(name, memory, size)),
        opened(get_array(name, memory, size)),
        len_only_at(get_array(name, memory, size), ARRAYGET_0@.len() + name.len() + 7int),
{
    lemma_arrayget_0(names);
    lemma_arrayget_1(names);
    lemma_arrayget_2(names);
    lemma_decimal(size, names);
    lemma_arrayget_3(names);
    lemma_arrayget_4(names);
    lemma_join(ARRAYGET_0@, name, names);
    let t0 = ARRAYGET_0@ + name;
    lemma_join(t0, ARRAYGET_1@, names);
    let t1 = t0 + ARRAYGET_1@;
    lemma_join(t1, memory, names);
    let t2 = t1 + memory;
    lemma_join(t2, ARRAYGET_2@, names);
    let t3 = t2 + ARRAYGET_2@;
    lemma_join(t3, decimal(size), names);
    let t4 = t3 + decimal(size);
    lemma_join(t4, ARRAYGET_3@, names);
    let t5 = t4 + ARRAYGET_3@;
    lemma_join(t5, decimal(size), names);
    let t6 = t5 + decimal(size);
    lemma_join(t6, ARRAYGET_4@, names);
}

/// What is looked for, in what gives a view of the memory.
proof fn lemma_memory_view(name: Seq<char>, js: Seq<char>, memory: Seq<char>, names: Set<Seq<char>>)
    requires
        covered(name, names),
        closed(name),
        ended(name),
        opened(name),
        lacks_len(name),
        covered(js, names),
        closed(js),
        ended(js),
        lacks_len(js),
        covered(memory, names),
        closed(memory),
        ended(memory),
        opened(memory),
        lacks_len(memory),
    ensures
        covered(memory_view(name, js, memory), names),
        closed(memory_view(name, js, memory)),
        ended(memory_view(name, js, memory)),
        opened(memory_view(name, js, memory)),
        lacks_len(memory_view(name, js, memory)),
{
    lemma_memview_0(names);
    lemma_memview_1(names);
    lemma_memview_2(names);
    lemma_memview_3(names);
    lemma_memview_4(names);
    lemma_memview_5(names);
    lemma_memview_6(names);
    lemma_memview_7(names);
    lemma_memview_8(names);
    lemma_memview_9(names);
    lemma_join(MEMVIEW_0@, name, names);
    let t0 = MEMVIEW_0@ + name;
    lemma_join(t0, MEMVIEW_1@, names);
    let t1 = t0 + MEMVIEW_1@;
    lemma_join(t1, name, names);
    let t2 = t1 + name;
    lemma_join(t2, MEMVIEW_2@, names);
    let t3 = t2 + MEMVIEW_2@;
    lemma_join(t3, name, names);
    let t4 = t3 + name;
    lemma_join(t4, MEMVIEW_3@, names);
    let t5 = t4 + MEMVIEW_3@;
    lemma_join(t5, name, names);
    let t6 = t5 + name;
    lemma_join(t6, MEMVIEW_4@, names);
    let t7 = t6 + MEMVIEW_4@;
    lemma_join(t7, memory, names);
    let t8 = t7 + memory;
    lemma_join(t8, MEMVIEW_5@, names);
    let t9 = t8 + MEMVIEW_5@;
    lemma_join(t9, name, names);
    let t10 = t9 + name;
    lemma_join(t10, MEMVIEW_6@, names);
    let t11 = t10 + MEMVIEW_6@;
    lemma_join(t11, js, names);
    let t12 = t11 + js;
    lemma_join(t12, MEMVIEW_7@, names);
    let t13 = t12 + MEMVIEW_7@;
    lemma_join(t13, memory, names);
    let t14 = t13 + memory;
    lemma_join(t14, MEMVIEW_8@, names);
    let t15 = t14 + MEMVIEW_8@;
    lemma_join(t15, name, names);
    let t16 = t15 + name;
    lemma_join(t16, MEMVIEW_9@, names);
}

/// What is looked for, in what puts a value on the heap.
proof fn lemma_add_heap_object(config: Bindgen, names: Set<Seq<char>>)
    ensures
        covered(add_heap_object(config), names),
        closed(add_heap_object(config)),
        ended(add_heap_object(config)),
        opened(add_heap_object(config)),
        lacks_len(add_heap_object(config)),
{
    let check = if config.debug {
        HEAP_CHECK@
    } else {
        ""@
    };
    lemma_heap_check(names);
    lemma_empty(names);
    lemma_add_heap_object_0(names);
    lemma_add_heap_object_1(names);
    lemma_join(ADD_HEAP_OBJECT_0@, check, names);
    let t0 = ADD_HEAP_OBJECT_0@ + check;
    lemma_join(t0, ADD_HEAP_OBJECT_1@, names);
}

/// What is looked for, in what reads a string.
proof fn lemma_get_string(shared: bool, names: Set<Seq<char>>)
    ensures
        covered(get_string(shared), names),
        len_only_at(get_string(shared), 46),
{
    let method = if shared {
        "slice"@
    } else {
        "subarray"@
    };
    reveal_strlit("slice");
    reveal_strlit("subarray");
    reveal_with_fuel(plain, 9);
    assert(plain("slice"@, 5, -1, -1) && plain("subarray"@, 8, -1, -1));
    lemma_plain("slice"@, names);
    lemma_plain("subarray"@, names);
    lemma_get_string_0(names);
    lemma_get_string_1(names);
    lemma_join(GET_STRING_0@, method, names);
    lemma_join(GET_STRING_0@ + method, GET_STRING_1@, names);
}

/// The literals of the functions that pass a typed array.
proof fn lemma_pass_names(helper: Helper, names: Set<Seq<char>>)
    requires
        helper.known_pass(),
    ensures
        covered(helper->PassArray_name, names),
        closed(helper->PassArray_name),
        ended(helper->PassArray_name),
        opened(helper->PassArray_name),
        lacks_len(helper->PassArray_name),
        covered(helper->delegate, names),
        closed(helper->delegate),
        ended(helper->delegate),
        opened(helper->delegate),
        lacks_len(helper->delegate),
{
    reveal_with_fuel(plain, 27);
    if helper == pass_array8() {
        reveal_strlit("passArray8ToWasm");
        assert(plain("passArray8ToWasm"@, 16, -1, -1));
        lemma_plain("passArray8ToWasm"@, names);
        reveal_strlit("getUint8Memory");
        assert(plain("getUint8Memory"@, 14, -1, -1));
        lemma_plain("getUint8Memory"@, names);
    }     else if helper == pass_array16() {
        reveal_strlit("passArray16ToWasm");
        assert(plain("passArray16ToWasm"@, 17, -1, -1));
        lemma_plain("passArray16ToWasm"@, names);
        reveal_strlit("getUint16Memory");
        assert(plain("getUint16Memory"@, 15, -1, -1));
        lemma_plain("getUint16Memory"@, names);
    }     else if helper == pass_array32() {
        reveal_strlit("passArray32ToWasm");
        assert(plain("passArray32ToWasm"@, 17, -1, -1));
        lemma_plain("passArray32ToWasm"@, names);
        reveal_strlit("getUint32Memory");
        assert(plain("getUint32Memory"@, 15, -1, -1));
        lemma_plain("getUint32Memory"@, names);
    }     else if helper == pass_array64() {
        reveal_strlit("passArray64ToWasm");
        assert(plain("passArray64ToWasm"@, 17, -1, -1));
        lemma_plain("passArray64ToWasm"@, names);
        reveal_strlit("getUint64Memory");
        assert(plain("getUint64Memory"@, 15, -1, -1));
        lemma_plain("getUint64Memory"@, names);
    }     else if helper == pass_array_f32() {
        reveal_strlit("passArrayF32ToWasm");
        assert(plain("passArrayF32ToWasm"@, 18, -1, -1));
        lemma_plain("passArrayF32ToWasm"@, names);
        reveal_strlit("getFloat32Memory");
        assert(plain("getFloat32Memory"@, 16, -1, -1));
        lemma_plain("getFloat32Memory"@, names);
    }     else if helper == pass_array_f64() {
        reveal_strlit("passArrayF64ToWasm");
        assert(plain("passArrayF64ToWasm"@, 18, -1, -1));
        lemma_plain("passArrayF64ToWasm"@, names);
        reveal_strlit("getFloat64Memory");
        assert(plain("getFloat64Memory"@, 16, -1, -1));
        lemma_plain("getFloat64Memory"@, names);
    }
}

/// The literals of the functions that read a typed array.
proof fn lemma_get_names(helper: Helper, names: Set<Seq<char>>)
    requires
        helper.known_get(),
    ensures
        covered(helper->GetArray_name, names),
        closed(helper->GetArray_name),
        ended(helper->GetArray_name),
        opened(helper->GetArray_name),
        lacks_len(helper->GetArray_name),
        covered(helper->memory, names),
        closed(helper->memory),
        ended(helper->memory),
        opened(helper->memory),
        lacks_len(helper->memory),
{
    reveal_with_fuel(plain, 27);
    if helper == get_array_i8() {
        reveal_strlit("getArrayI8FromWasm");
        assert(plain("getArrayI8FromWasm"@, 18, -1, -1));
        lemma_plain("getArrayI8FromWasm"@, names);
        reveal_strlit("getInt8Memory");
        assert(plain("getInt8Memory"@, 13, -1, -1));
        lemma_plain("getInt8Memory"@, names);
    }     else if helper == get_array_u8() {
        reveal_strlit("getArrayU8FromWasm");
        assert(plain("getArrayU8FromWasm"@, 18, -1, -1));
        lemma_plain("getArrayU8FromWasm"@, names);
        reveal_strlit("getUint8Memory");
        assert(plain("getUint8Memory"@, 14, -1, -1));
        lemma_plain("getUint8Memory"@, names);
    }     else if helper == get_clamped_array_u8() {
        reveal_strlit("getClampedArrayU8FromWasm");
        assert(plain("getClampedArrayU8FromWasm"@, 25, -1, -1));
        lemma_plain("getClampedArrayU8FromWasm"@, names);
        reveal_strlit("getUint8ClampedMemory");
        assert(plain("getUint8ClampedMemory"@, 21, -1, -1));
        lemma_plain("getUint8ClampedMemory"@, names);
    }     else if helper == get_array_i16() {
        reveal_strlit("getArrayI16FromWasm");
        assert(plain("getArrayI16FromWasm"@, 19, -1, -1));
        lemma_plain("getArrayI16FromWasm"@, names);
        reveal_strlit("getInt16Memory");
        assert(plain("getInt16Memory"@, 14, -1, -1));
        lemma_plain("getInt16Memory"@, names);
    }     else if helper == get_array_u16() {
        reveal_strlit("getArrayU16FromWasm");
        assert(plain("getArrayU16FromWasm"@, 19, -1, -1));
        lemma_plain("getArrayU16FromWasm"@, names);
        reveal_strlit("getUint16Memory");
        assert(plain("getUint16Memory"@, 15, -1, -1));
        lemma_plain("getUint16Memory"@, names);
    }     else if helper == get_array_i32() {
        reveal_strlit("getArrayI32FromWasm");
        assert(plain("getArrayI32FromWasm"@, 19, -1, -1));
        lemma_plain("getArrayI32FromWasm"@, names);
        reveal_strlit("getInt32Memory");
        assert(plain("getInt32Memory"@, 14, -1, -1));
        lemma_plain("getInt32Memory"@, names);
    }     else if helper == get_array_u32() {
        reveal_strlit("getArrayU32FromWasm");
        assert(plain("getArrayU32FromWasm"@, 19, -1, -1));
        lemma_plain("getArrayU32FromWasm"@, names);
        reveal_strlit("getUint32Memory");
        assert(plain("getUint32Memory"@, 15, -1, -1));
        lemma_plain("getUint32Memory"@, names);
    }     else if helper == get_array_i64() {
        reveal_strlit("getArrayI64FromWasm");
        assert(plain("getArrayI64FromWasm"@, 19, -1, -1));
        lemma_plain("getArrayI64FromWasm"@, names);
        reveal_strlit("getInt64Memory");
        assert(plain("getInt64Memory"@, 14, -1, -1));
        lemma_plain("getInt64Memory"@, names);
    }     else if helper == get_array_u64() {
        reveal_strlit("getArrayU64FromWasm");
        assert(plain("getArrayU64FromWasm"@, 19, -1, -1));
        lemma_plain("getArrayU64FromWasm"@, names);
        reveal_strlit("getUint64Memory");
        assert(plain("getUint64Memory"@, 15, -1, -1));
        lemma_plain("getUint64Memory"@, names);
    }     else if helper == get_array_f32() {
        reveal_strlit("getArrayF32FromWasm");
        assert(plain("getArrayF32FromWasm"@, 19, -1, -1));
        lemma_plain("getArrayF32FromWasm"@, names);
        reveal_strlit("getFloat32Memory");
        assert(plain("getFloat32Memory"@, 16, -1, -1));
        lemma_plain("getFloat32Memory"@, names);
    }     else if helper == get_array_f64() {
        reveal_strlit("getArrayF64FromWasm");
        assert(plain("getArrayF64FromWasm"@, 19, -1, -1));
        lemma_plain("getArrayF64FromWasm"@, names);
        reveal_strlit("getFloat64Memory");
        assert(plain("getFloat64Memory"@, 16, -1, -1));
        lemma_plain("getFloat64Memory"@, names);
    }
}

/// The literals of the functions that give a view of the memory.
proof fn lemma_view_names(helper: Helper, names: Set<Seq<char>>)
    requires
        helper.known_view(),
    ensures
        covered(helper->MemoryView_name, names),
        closed(helper->MemoryView_name),
        ended(helper->MemoryView_name),
        opened(helper->MemoryView_name),
        lacks_len(helper->MemoryView_name),
        covered(helper->js, names),
        closed(helper->js),
        ended(helper->js),
        lacks_len(helper->js),
{
    reveal_with_fuel(plain, 27);
    if helper == node_buffer_memory() {
        reveal_strlit("getNodeBufferMemory");
        assert(plain("getNodeBufferMemory"@, 19, -1, -1));
        lemma_plain("getNodeBufferMemory"@, names);
        reveal_strlit("Buffer.from");
        assert(plain("Buffer.from"@, 11, -1, -1));
        lemma_plain("Buffer.from"@, names);
    }     else if helper == int8_memory() {
        reveal_strlit("getInt8Memory");
        assert(plain("getInt8Memory"@, 13, -1, -1));
        lemma_plain("getInt8Memory"@, names);
        reveal_strlit("new Int8Array");
        assert(plain("new Int8Array"@, 13, -1, -1));
        lemma_plain("new Int8Array"@, names);
    }     else if helper == uint8_memory() {
        reveal_strlit("getUint8Memory");
        assert(plain("getUint8Memory"@, 14, -1, -1));
        lemma_plain("getUint8Memory"@, names);
        reveal_strlit("new Uint8Array");
        assert(plain("new Uint8Array"@, 14, -1, -1));
        lemma_plain("new Uint8Array"@, names);
    }     else if helper == clamped_uint8_memory() {
        reveal_strlit("getUint8ClampedMemory");
        assert(plain("getUint8ClampedMemory"@, 21, -1, -1));
        lemma_plain("getUint8ClampedMemory"@, names);
        reveal_strlit("new Uint8ClampedArray");
        assert(plain("new Uint8ClampedArray"@, 21, -1, -1));
        lemma_plain("new Uint8ClampedArray"@, names);
    }     else if helper == int16_memory() {
        reveal_strlit("getInt16Memory");
        assert(plain("getInt16Memory"@, 14, -1, -1));
        lemma_plain("getInt16Memory"@, names);
        reveal_strlit("new Int16Array");
        assert(plain("new Int16Array"@, 14, -1, -1));
        lemma_plain("new Int16Array"@, names);
    }     else if helper == uint16_memory() {
        reveal_strlit("getUint16Memory");
        assert(plain("getUint16Memory"@, 15, -1, -1));
        lemma_plain("getUint16Memory"@, names);
        reveal_strlit("new Uint16Array");
        assert(plain("new Uint16Array"@, 15, -1, -1));
        lemma_plain("new Uint16Array"@, names);
    }     else if helper == int32_memory() {
        reveal_strlit("getInt32Memory");
        assert(plain("getInt32Memory"@, 14, -1, -1));
        lemma_plain("getInt32Memory"@, names);
        reveal_strlit("new Int32Array");
        assert(plain("new Int32Array"@, 14, -1, -1));
        lemma_plain("new Int32Array"@, names);
    }     else if helper == uint32_memory() {
        reveal_strlit("getUint32Memory");
        assert(plain("getUint32Memory"@, 15, -1, -1));
        lemma_plain("getUint32Memory"@, names);
        reveal_strlit("new Uint32Array");
        assert(plain("new Uint32Array"@, 15, -1, -1));
        lemma_plain("new Uint32Array"@, names);
    }     else if helper == int64_memory() {
        reveal_strlit("getInt64Memory");
        assert(plain("getInt64Memory"@, 14, -1, -1));
        lemma_plain("getInt64Memory"@, names);
        reveal_strlit("new BigInt64Array");
        assert(plain("new BigInt64Array"@, 17, -1, -1));
        lemma_plain("new BigInt64Array"@, names);
    }     else if helper == uint64_memory() {
        reveal_strlit("getUint64Memory");
        assert(plain("getUint64Memory"@, 15, -1, -1));
        lemma_plain("getUint64Memory"@, names);
        reveal_strlit("new BigUint64Array");
        assert(plain("new BigUint64Array"@, 18, -1, -1));
        lemma_plain("new BigUint64Array"@, names);
    }     else if helper == f32_memory() {
        reveal_strlit("getFloat32Memory");
        assert(plain("getFloat32Memory"@, 16, -1, -1));
        lemma_plain("getFloat32Memory"@, names);
        reveal_strlit("new Float32Array");
        assert(plain("new Float32Array"@, 16, -1, -1));
        lemma_plain("new Float32Array"@, names);
    }     else if helper == f64_memory() {
        reveal_strlit("getFloat64Memory");
        assert(plain("getFloat64Memory"@, 16, -1, -1));
        lemma_plain("getFloat64Memory"@, names);
        reveal_strlit("new Float64Array");
        assert(plain("new Float64Array"@, 16, -1, -1));
        lemma_plain("new Float64Array"@, names);
    }
}

/// The names of the conversions of integers.
proof fn lemma_shim_names(names: Set<Seq<char>>)
    ensures
        covered("u32CvtShim"@, names),
        closed("u32CvtShim"@),
        ended("u32CvtShim"@),
        opened("u32CvtShim"@),
        lacks_len("u32CvtShim"@),
        covered("int64CvtShim"@, names),
        closed("int64CvtShim"@),
        ended("int64CvtShim"@),
        opened("int64CvtShim"@),
        lacks_len("int64CvtShim"@),
        covered("uint64CvtShim"@, names),
        closed("uint64CvtShim"@),
        ended("uint64CvtShim"@),
        opened("uint64CvtShim"@),
        lacks_len("uint64CvtShim"@),
{
    reveal_with_fuel(plain, 14);
    reveal_strlit("u32CvtShim");
    assert(plain("u32CvtShim"@, 10, -1, -1));
    lemma_plain("u32CvtShim"@, names);
    reveal_strlit("int64CvtShim");
    assert(plain("int64CvtShim"@, 12, -1, -1));
    lemma_plain("int64CvtShim"@, names);
    reveal_strlit("uint64CvtShim");
    assert(plain("uint64CvtShim"@, 13, -1, -1));
    lemma_plain("uint64CvtShim"@, names);
}

/// What the memory is called.
proof fn lemma_memory_name(state: GlueView, names: Set<Seq<char>>)
    ensures
        covered(state.memory_name(), names),
        closed(state.memory_name()),
        ended(state.memory_name()),
        opened(state.memory_name()),
        lacks_len(state.memory_name()),
{
    reveal_with_fuel(plain, 12);
    reveal_strlit("memory");
    assert(plain("memory"@, 6, -1, -1));
    lemma_plain("memory"@, names);
    reveal_strlit("wasm.memory");
    assert(plain("wasm.memory"@, 11, -1, -1));
    lemma_plain("wasm.memory"@, names);
}

impl Helper {
    /// Whether the helper is a function that reads items.
    pub open spec fn reads(self) -> bool {
        self is GetString || self is GetArrayJsValue || self is GetArray
    }
}

/// What the texts of a helper call, where it notes those names.
pub proof fn lemma_emits(state: GlueView, helper: Helper, i: int, names: Set<Seq<char>>)
    requires
        helper.known(),
        0 <= i < state.steps(helper).len(),
        forall|name: Seq<char>| #[trigger]
            notes(state.steps(helper), name) ==> names.contains(name),
    ensures
        state.steps(helper)[i] matches Step::Emit(text) ==> covered(text, names) && (
        helper.reads() || lacks_len(text)),
{
    let steps = state.steps(helper);
    assert forall|j: int|
        0 <= j < steps.len() && #[trigger] steps[j] is Require implies names.contains(
        steps[j]->Require_0,
    ) by {
        assert(notes(steps, steps[j]->Require_0));
    }
    match helper {
        Helper::DoesNotExist => {
            lemma_does_not_exist(names);
        },
        Helper::AssertNum => {
            lemma_assert_num(names);
        },
        Helper::AssertBool => {
            lemma_assert_bool(names);
        },
        Helper::WasmVectorLen => {
            lemma_wasm_vector_len(names);
        },
        Helper::AssertClass => {
            lemma_assert_class(names);
        },
        Helper::InheritedDescriptor => {
            lemma_get_inherited_descriptor(names);
        },
        Helper::IsLikeNone => {
            lemma_is_like_none(names);
        },
        Helper::DebugString => {
            lemma_debug_string(names);
        },
        Helper::GlobalArgumentPtr => {
            lemma_global_argument_ptr(names);
        },
        Helper::AddToAnyrefTable => {
            lemma_add_to_anyref_table(names);
        },
        Helper::HeapNext => {
            lemma_heap_next(names);
        },
        Helper::GetObject => {
            lemma_get_object(names);
        },
        Helper::BorrowedObjects => {
            lemma_borrowed_objects(names);
        },
        Helper::TakeObject => {
            lemma_take_object(names);
        },
        Helper::DropRef => {
            let first = (INITIAL_HEAP_OFFSET + INITIAL_HEAP_VALUES_LEN) as nat;
            lemma_drop_ref_0(names);
            lemma_decimal(first, names);
            lemma_drop_ref_1(names);
            lemma_join(DROP_REF_0@, decimal(first), names);
            lemma_join(DROP_REF_0@ + decimal(first), DROP_REF_1@, names);
        },
        Helper::Heap => {
            lemma_heap_0(names);
            lemma_decimal(INITIAL_HEAP_OFFSET as nat, names);
            lemma_heap_1(names);
            lemma_join(HEAP_0@, decimal(INITIAL_HEAP_OFFSET as nat), names);
            let t0 = HEAP_0@ + decimal(INITIAL_HEAP_OFFSET as nat);
            lemma_join(t0, HEAP_1@, names);
            lemma_heap_fill(names);
            lemma_heap_push_0(names);
            lemma_initial_heap_values(names);
            lemma_heap_push_1(names);
            lemma_join(HEAP_PUSH_0@, INITIAL_HEAP_VALUES@, names);
            let u0 = HEAP_PUSH_0@ + INITIAL_HEAP_VALUES@;
            lemma_join(u0, HEAP_PUSH_1@, names);
        },
        Helper::StackPointer => {
            lemma_stack_pointer_0(names);
            lemma_decimal(INITIAL_HEAP_OFFSET as nat, names);
            lemma_stack_pointer_1(names);
            lemma_join(STACK_POINTER_0@, decimal(INITIAL_HEAP_OFFSET as nat), names);
            let t0 = STACK_POINTER_0@ + decimal(INITIAL_HEAP_OFFSET as nat);
            lemma_join(t0, STACK_POINTER_1@, names);
        },
        Helper::PassString => {
            let config = state.config;
            if config.mode.nodejs() {
                lemma_pass_string_node(config, names);
            } else {
                lemma_use_encode(config, names);
                lemma_use_encode_into(config, names);
                lemma_pass_string(use_encode(config), names);
                lemma_pass_string(use_encode_into(config), names);
                lemma_pass_string_test(config, names);
            }
        },
        Helper::PassArrayJsValue => {
            lemma_pass_array_jsvalue_anyref(names);
            lemma_pass_array_jsvalue_heap(names);
        },
        Helper::GetArrayJsValue => {
            lemma_get_array_jsvalue_heap(names);
            if state.config.anyref {
                lemma_get_array_jsvalue_anyref(names);
            }
        },
        Helper::HandleError => {
            lemma_handle_error_anyref(names);
            lemma_handle_error_heap(names);
        },
        Helper::GetString => {
            lemma_get_string(state.memory_entry().limits.shared, names);
        },
        Helper::AddHeapObject => {
            lemma_add_heap_object(state.config, names);
        },
        Helper::U32Shim => {
            lemma_shim_names(names);
            lemma_u32_cvt_shim_0(names);
            lemma_u32_cvt_shim_1(names);
            lemma_join(U32_CVT_SHIM_0@, "u32CvtShim"@, names);
            let t0 = U32_CVT_SHIM_0@ + "u32CvtShim"@;
            lemma_join(t0, U32_CVT_SHIM_1@, names);
        },
        Helper::Int64Shim => {
            lemma_shim_names(names);
            lemma_int64_cvt_shim_0(names);
            lemma_int64_cvt_shim_1(names);
            lemma_int64_cvt_shim_2(names);
            lemma_join(INT64_CVT_SHIM_0@, "int64CvtShim"@, names);
            let t0 = INT64_CVT_SHIM_0@ + "int64CvtShim"@;
            lemma_join(t0, INT64_CVT_SHIM_1@, names);
            let t1 = t0 + INT64_CVT_SHIM_1@;
            lemma_join(t1, "u32CvtShim"@, names);
            let t2 = t1 + "u32CvtShim"@;
            lemma_join(t2, INT64_CVT_SHIM_2@, names);
        },
        Helper::Uint64Shim => {
            lemma_shim_names(names);
            lemma_uint64_cvt_shim_0(names);
            lemma_uint64_cvt_shim_1(names);
            lemma_uint64_cvt_shim_2(names);
            lemma_join(UINT64_CVT_SHIM_0@, "uint64CvtShim"@, names);
            let t0 = UINT64_CVT_SHIM_0@ + "uint64CvtShim"@;
            lemma_join(t0, UINT64_CVT_SHIM_1@, names);
            let t1 = t0 + UINT64_CVT_SHIM_1@;
            lemma_join(t1, "u32CvtShim"@, names);
            let t2 = t1 + "u32CvtShim"@;
            lemma_join(t2, UINT64_CVT_SHIM_2@, names);
        },
        Helper::PassArray { name, delegate, size } => {
            lemma_pass_names(helper, names);
            lemma_pass_array(name, delegate, size, names);
        },
        Helper::GetArray { name, memory, size } => {
            lemma_get_names(helper, names);
            lemma_get_array(name, memory, size, names);
        },
        Helper::MemoryView { name, js } => {
            lemma_view_names(helper, names);
            lemma_memory_name(state, names);
            lemma_memory_view(name, js, state.memory_name(), names);
        },
        _ => {},
    }
}

/// Where `en) ` stands in the text of a function that reads items.
pub proof fn lemma_reader(state: GlueView, kind: VectorKind)
    ensures
        match get_helper(kind) {
            Helper::GetArray { name, memory, size } => len_only_at(
                get_text(state, kind),
                ARRAYGET_0@.len() + name.len() + 7int,
            ),
            Helper::GetString => len_only_at(get_text(state, kind), 46),
            _ => len_only_at(get_text(state, kind), 56),
        },
{
    let names = set!["__wbindgen_drop_anyref_slice"@];
    match get_helper(kind) {
        Helper::GetArray { name, memory, size } => {
            lemma_get_names(get_helper(kind), names);
            lemma_get_array(name, memory, size, names);
        },
        Helper::GetString => lemma_get_string(state.memory_entry().limits.shared, names),
        _ => {
            lemma_get_array_jsvalue_anyref(names);
            lemma_get_array_jsvalue_heap(names);
        },
    }
}

/// Each internal export that a text of a helper names is called there, and the helper notes it.
pub proof fn law_calls_are_noted(state: GlueView, helper: Helper, i: int, place: int)
    requires
        helper.known(),
        0 <= i < state.steps(helper).len(),
        state.steps(helper)[i] is Emit,
        internal_at(state.steps(helper)[i]->Emit_0, place),
    ensures
        exists|name: Seq<char>|
            notes(state.steps(helper), name) && #[trigger] call_at(
                state.steps(helper)[i]->Emit_0,
                place,
                name,
            ),
{
    let steps = state.steps(helper);
    let names = Set::new(|name: Seq<char>| notes(steps, name));
    lemma_emits(state, helper, i, names);
    let name = choose|name: Seq<char>|
        names.contains(name) && #[trigger] call_at(steps[i]->Emit_0, place, name);
    assert(notes(steps, name));
}

/// The end of a run leaves each internal export that an exposed helper calls, where the module has
/// it.
pub proof fn law_called_exports_stay(
    state: GlueView,
    helper: Helper,
    i: int,
    place: int,
    later: GlueView,
    module_name: Seq<char>,
)
    requires
        state.open(),
        helper.known(),
        !state.is_exposed(helper.key()),
        state.expose(helper).result is Ok,
        0 <= i < state.steps(helper).len(),
        state.steps(helper)[i] is Emit,
        internal_at(state.steps(helper)[i]->Emit_0, place),
        state.expose(helper).state.grows_to(later),
        later.can_finalize(),
        later.finalize(module_name).result is Ok,
        !later.module.exports.contains_key(later.module.next_export),
    ensures
        exists|name: Seq<char>| #[trigger]
            call_at(state.steps(helper)[i]->Emit_0, place, name) && (later.module.exports_name(name)
                ==> later.finalize(module_name).state.module.exports_name(name)),
{
    law_calls_are_noted(state, helper, i, place);
    let steps = state.steps(helper);
    let name = choose|name: Seq<char>|
        notes(steps, name) && #[trigger] call_at(steps[i]->Emit_0, place, name);
    let j = choose|j: int| 0 <= j < steps.len() && #[trigger] steps[j] == Step::Require(name);
    law_requires_are_noted(state, helper, j);
    assert(later.required.contains(name));
    if later.module.exports_name(name) {
        law_required_stays(later, module_name, name);
    }
}

} // verus!
