//! What holds of the functions that pass and read strings and arrays.
use crate::config::{Bindgen, VectorKind};
use crate::context::GlueView;
use crate::helper_laws::{get_helper, get_text};
use crate::helpers::{
    get_name, get_steps, kind_memory, pass_name, pass_steps, pass_string, pass_string_node,
    pass_string_test, string_check, use_encode, use_encode_into, Helper, Step,
};
use crate::text::decimal;
use vstd::prelude::*;

verus! {

/// Whether items of some kind are numbers, so that a typed array holds them.
pub open spec fn is_number(kind: VectorKind) -> bool {
    !(kind is String) && !(kind is Anyref)
}

/// How many bytes an item takes in the memory.
pub open spec fn width(kind: VectorKind) -> nat {
    match kind {
        VectorKind::I8 | VectorKind::U8 | VectorKind::ClampedU8 | VectorKind::String => 1,
        VectorKind::I16 | VectorKind::U16 => 2,
        VectorKind::I32 | VectorKind::U32 | VectorKind::F32 | VectorKind::Anyref => 4,
        VectorKind::I64 | VectorKind::U64 | VectorKind::F64 => 8,
    }
}

/// The JavaScript class of the arrays of items of some kind. Strings are bytes, and other values are
/// indices.
pub open spec fn array_class(kind: VectorKind) -> Seq<char> {
    match kind {
        VectorKind::I8 => "Int8Array"@,
        VectorKind::U8 => "Uint8Array"@,
        VectorKind::ClampedU8 => "Uint8ClampedArray"@,
        VectorKind::I16 => "Int16Array"@,
        VectorKind::U16 => "Uint16Array"@,
        VectorKind::I32 => "Int32Array"@,
        VectorKind::U32 => "Uint32Array"@,
        VectorKind::I64 => "BigInt64Array"@,
        VectorKind::U64 => "BigUint64Array"@,
        VectorKind::F32 => "Float32Array"@,
        VectorKind::F64 => "Float64Array"@,
        VectorKind::String => "Uint8Array"@,
        VectorKind::Anyref => "Uint32Array"@,
    }
}

/// How many bytes an item of an array of a class takes.
pub open spec fn class_width(class: Seq<char>) -> nat {
    if class == "Int8Array"@ || class == "Uint8Array"@ || class == "Uint8ClampedArray"@ {
        1
    } else if class == "Int16Array"@ || class == "Uint16Array"@ {
        2
    } else if class == "Int32Array"@ || class == "Uint32Array"@ || class == "Float32Array"@ {
        4
    } else {
        8
    }
}

/// A function that gives a view of the memory as an array of some class. It makes a new view where
/// the memory has grown.
pub open spec fn view_text(name: Seq<char>, class: Seq<char>, memory: Seq<char>) -> Seq<char> {
    "
            let cache"@ + name + " = null;
            function "@ + name + "() {
                if (cache"@ + name + " === null || cache"@ + name + ".buffer !== "@ + memory
        + ".buffer) {
                    cache"@ + name + " = "@ + ("new "@ + class) + "("@ + memory + ".buffer);
                }
                return cache"@ + name + ";
            }
            "@
}

/// The name of the memory that JavaScript knows it by.
pub open spec fn memory_in_js(state: GlueView) -> Seq<char> {
    if state.module.memories[state.memory].import is Some {
        "memory"@
    } else {
        "wasm.memory"@
    }
}

/// The names of classes are different, so their widths are what they are.
proof fn lemma_classes()
    ensures
        forall|kind: VectorKind| class_width(#[trigger] array_class(kind)) == width(kind),
{
    reveal_strlit("Int8Array");
    reveal_strlit("Uint8Array");
    reveal_strlit("Uint8ClampedArray");
    reveal_strlit("Int16Array");
    reveal_strlit("Uint16Array");
    reveal_strlit("Int32Array");
    reveal_strlit("Uint32Array");
    reveal_strlit("BigInt64Array");
    reveal_strlit("BigUint64Array");
    reveal_strlit("Float32Array");
    reveal_strlit("Float64Array");
    assert forall|kind: VectorKind| class_width(#[trigger] array_class(kind)) == width(kind) by {
        let class = array_class(kind);
        assert(class.len() == 9 || class.len() == 10 || class.len() == 11 || class.len() == 12
            || class.len() == 13 || class.len() == 14 || class.len() == 17);
        match kind {
            VectorKind::I8 => {},
            VectorKind::U8 => {},
            VectorKind::ClampedU8 => {},
            VectorKind::I16 => {
                assert(class[3] == '1' && class[0] == 'I');
                assert("Uint8Array"@[0] == 'U');
            },
            VectorKind::U16 => {
                assert(class[4] == '1');
            },
            VectorKind::I32 => {
                assert(class[3] == '3' && class[0] == 'I');
                assert("Int16Array"@[3] == '1' && "Uint8Array"@[0] == 'U');
            },
            VectorKind::U32 => {
                assert(class[4] == '3' && "Uint16Array"@[4] == '1');
            },
            VectorKind::I64 => {
                assert(class.len() == 13);
            },
            VectorKind::U64 => {
                assert(class.len() == 14);
            },
            VectorKind::F32 => {},
            VectorKind::F64 => {
                assert(class[5] == '6' && "Float32Array"@[5] == '3');
            },
            VectorKind::String => {},
            VectorKind::Anyref => {
                assert(class[4] == '3' && "Uint16Array"@[4] == '1');
            },
        }
    }
}

/// The view that items of some kind go through is an array of their class, whose items are as wide
/// as they are. It is a view of the memory of the module, wherever that comes from.
pub proof fn law_view(state: GlueView, kind: VectorKind)
    ensures
        state.steps(kind_memory(kind)) == seq![
            Step::Emit(
                view_text(kind_memory(kind).key(), array_class(kind), memory_in_js(state)),
            ),
        ],
        class_width(array_class(kind)) == width(kind),
{
    lemma_classes();
    lemma_new(kind);
}

/// A view is made by the constructor of its class.
proof fn lemma_new(kind: VectorKind)
    ensures
        kind_memory(kind) matches Helper::MemoryView { name, js } && js == "new "@ + array_class(
            kind,
        ),
{
    reveal_strlit("new ");
    match kind {
        VectorKind::I8 => {
            reveal_strlit("Int8Array");
            reveal_strlit("new Int8Array");
            assert("new "@ + "Int8Array"@ =~= "new Int8Array"@);
        },
        VectorKind::U8 | VectorKind::String => {
            reveal_strlit("Uint8Array");
            reveal_strlit("new Uint8Array");
            assert("new "@ + "Uint8Array"@ =~= "new Uint8Array"@);
        },
        VectorKind::ClampedU8 => {
            reveal_strlit("Uint8ClampedArray");
            reveal_strlit("new Uint8ClampedArray");
            assert("new "@ + "Uint8ClampedArray"@ =~= "new Uint8ClampedArray"@);
        },
        VectorKind::I16 => {
            reveal_strlit("Int16Array");
            reveal_strlit("new Int16Array");
            assert("new "@ + "Int16Array"@ =~= "new Int16Array"@);
        },
        VectorKind::U16 => {
            reveal_strlit("Uint16Array");
            reveal_strlit("new Uint16Array");
            assert("new "@ + "Uint16Array"@ =~= "new Uint16Array"@);
        },
        VectorKind::I32 => {
            reveal_strlit("Int32Array");
            reveal_strlit("new Int32Array");
            assert("new "@ + "Int32Array"@ =~= "new Int32Array"@);
        },
        VectorKind::U32 | VectorKind::Anyref => {
            reveal_strlit("Uint32Array");
            reveal_strlit("new Uint32Array");
            assert("new "@ + "Uint32Array"@ =~= "new Uint32Array"@);
        },
        VectorKind::I64 => {
            reveal_strlit("BigInt64Array");
            reveal_strlit("new BigInt64Array");
            assert("new "@ + "BigInt64Array"@ =~= "new BigInt64Array"@);
        },
        VectorKind::U64 => {
            reveal_strlit("BigUint64Array");
            reveal_strlit("new BigUint64Array");
            assert("new "@ + "BigUint64Array"@ =~= "new BigUint64Array"@);
        },
        VectorKind::F32 => {
            reveal_strlit("Float32Array");
            reveal_strlit("new Float32Array");
            assert("new "@ + "Float32Array"@ =~= "new Float32Array"@);
        },
        VectorKind::F64 => {
            reveal_strlit("Float64Array");
            reveal_strlit("new Float64Array");
            assert("new "@ + "Float64Array"@ =~= "new Float64Array"@);
        },
    }
}

/// The function that reads numbers takes them out of the view for their kind, which is exposed
/// before. The address of the first becomes an index by a division by the width of an item, and as
/// many are read as there are.
pub proof fn law_reading(state: GlueView, kind: VectorKind)
    requires
        is_number(kind),
    ensures
        get_steps(kind) == seq![
            Step::Expose(kind_memory(kind)),
            Step::Expose(get_helper(kind)),
        ],
        state.steps(get_helper(kind)) == seq![Step::Emit(get_text(state, kind))],
        get_text(state, kind) == "
            function "@ + get_name(kind) + "(ptr, len) {
                return "@ + kind_memory(kind).key() + "().subarray(ptr / "@ + decimal(width(kind))
            + ", ptr / "@ + decimal(width(kind)) + " + len);
            }
            "@,
{
}

/// The view through which numbers are passed, which does not tell signed ones from unsigned ones.
pub open spec fn passing_view(kind: VectorKind) -> VectorKind {
    match kind {
        VectorKind::I8 => VectorKind::U8,
        VectorKind::ClampedU8 => VectorKind::U8,
        VectorKind::I16 => VectorKind::U16,
        VectorKind::I32 => VectorKind::U32,
        VectorKind::I64 => VectorKind::U64,
        _ => kind,
    }
}

/// The function that passes numbers asks the module for as many bytes as they take, and puts them
/// there through a view with items of their width, which is exposed before. It tells how many they
/// are, and hands back where they are.
pub proof fn law_passing(state: GlueView, kind: VectorKind)
    requires
        is_number(kind),
    ensures
        width(passing_view(kind)) == width(kind),
        pass_steps(kind).len() == 2,
        pass_steps(kind)[0] == Step::Expose(kind_memory(passing_view(kind))),
        pass_steps(kind)[1] is Expose,
        state.steps(pass_steps(kind)[1]->Expose_0) == seq![
            Step::Require("__wbindgen_malloc"@),
            Step::Expose(Helper::WasmVectorLen),
            Step::Emit(
                "
            function "@ + pass_name(kind) + "(arg) {
                const ptr = wasm.__wbindgen_malloc(arg.length * "@ + decimal(width(kind)) + ");
                "@ + kind_memory(passing_view(kind)).key() + "().set(arg, ptr / "@ + decimal(
                    width(kind),
                ) + ");
                WASM_VECTOR_LEN = arg.length;
                return ptr;
            }
            "@,
            ),
        ],
{
}

/// Strings and other values are read by functions of their own, which are exposed alone, and so
/// they are passed.
pub proof fn law_other_vectors(state: GlueView)
    ensures
        get_steps(VectorKind::String) == seq![Step::Expose(Helper::GetString)],
        get_steps(VectorKind::Anyref) == seq![Step::Expose(Helper::GetArrayJsValue)],
        pass_steps(VectorKind::String) == seq![Step::Expose(Helper::PassString)],
        pass_steps(VectorKind::Anyref) == seq![Step::Expose(Helper::PassArrayJsValue)],
        state.steps(Helper::GetString) == seq![
            Step::Expose(Helper::TextDecoder),
            Step::Expose(kind_memory(VectorKind::String)),
            Step::Emit(get_text(state, VectorKind::String)),
        ],
        get_text(state, VectorKind::String) == "
            function getStringFromWasm(ptr, len) {
                return cachedTextDecoder.decode(getUint8Memory()."@ + (if state.module.memories[
            state.memory].limits.shared {
            "slice"@
        } else {
            "subarray"@
        }) + "(ptr, ptr + len));
            }
        "@,
{
}

/// How a string is passed: on Node.js by its `Buffer`. Elsewhere `encodeInto` is used where the
/// options ask for it, or where it turns out to be there if they ask for that, but not with memory
/// that threads share; and else `encode`. In a debug run, and only there, it is checked that a
/// string is passed.
pub proof fn law_string_passing(state: GlueView)
    ensures
        ({
            let config = state.config;
            let shared = state.module.memories[state.memory].limits.shared;
            let last = state.steps(Helper::PassString).last();
            &&& config.mode is Node ==> last == Step::Emit(pass_string_node(config))
            &&& !(config.mode is Node) ==> last == Step::Emit(
                if !shared && config.encode_into is Always {
                    pass_string(use_encode_into(config))
                } else if !shared && config.encode_into is Test {
                    pass_string_test(config)
                } else {
                    pass_string(use_encode(config))
                },
            )
            &&& string_check(config) == (if config.debug {
                "
                if (typeof(arg) !== 'string') throw new Error('expected a string argument');
            "@
            } else {
                ""@
            })
        }),
{
}

/// The texts that pass strings, put together of what they do.
pub proof fn law_string_texts(config: Bindgen)
    ensures
        pass_string_node(config) == "
                    function passStringToWasm(arg) {
                        "@ + string_check(config) + "
                        const size = Buffer.byteLength(arg);
                        const ptr = wasm.__wbindgen_malloc(size);
                        getNodeBufferMemory().write(arg, ptr, size);
                        WASM_VECTOR_LEN = size;
                        return ptr;
                    }
                "@,
{
}

} // verus!
