//! What holds of the texts of the helpers, and of what they need.
use crate::bindings::ImportNameView;
use crate::config::{Bindgen, OutputMode, VectorKind};
use crate::context::{with_item, GlueView};
use crate::error::GlueErrorView;
use crate::expose::{object_read, object_taken};
use crate::helpers::{
    add_heap_object, get_name, node_buffer_memory, pass_name, pass_string, pass_string_test,
    start_encoding, string_check, uint32_memory, uint8_memory, use_encode, use_encode_into, Helper,
    Step,
};
use crate::module::{ExportItem, ExportView, TableKind};
use crate::parts::holds;
use crate::reader_laws::stands_at;
use crate::snippets::{
    DEBUG_STRING, GET_ARRAY_JSVALUE_ANYREF, GET_ARRAY_JSVALUE_HEAP, GET_OBJECT, HANDLE_ERROR_ANYREF,
    HANDLE_ERROR_HEAP, PASS_ARRAY_JSVALUE_ANYREF, PASS_ARRAY_JSVALUE_HEAP, TAKE_OBJECT,
};
use crate::text::decimal;
use vstd::prelude::*;

verus! {

/// The heap starts with a stack of 32 places for borrowed values, and behind it there are four values
/// that are never dropped. The stack pointer starts at the end of the stack, and nothing that is
/// before the end of those values is dropped.
pub proof fn law_heap(state: GlueView)
    ensures
        state.steps(Helper::Heap) == seq![
            Step::Emit("const heap = new Array("@ + decimal(32) + ");"@),
            Step::Emit("heap.fill(undefined);"@),
            Step::Emit("heap.push("@ + "undefined, null, true, false"@ + ");"@),
        ],
        state.steps(Helper::StackPointer) == seq![
            Step::Emit("let stack_pointer = "@ + decimal(32) + ";"@),
        ],
        state.steps(Helper::DropRef).last() == Step::Emit(
            "
            function dropObject(idx) {
                if (idx < "@ + decimal(32 + 4) + ") return;
                heap[idx] = heap_next;
                heap_next = idx;
            }
            "@,
        ),
{
}

/// In a debug run, and only there, the free list of the heap is checked where a value is added.
pub proof fn law_heap_check(config: Bindgen)
    ensures
        add_heap_object(config) == "
            function addHeapObject(obj) {
                if (heap_next === heap.length) heap.push(heap.length + 1);
                const idx = heap_next;
                heap_next = heap[idx];
                "@ + (if config.debug {
            "
                if (typeof(heap_next) !== 'number') throw new Error('corrupt heap');
                "@
        } else {
            ""@
        }) + "
                heap[idx] = obj;
                return idx;
            }
            "@,
{
}

/// The functions that pass strings off Node.js: each starts by writing what is ASCII. `encodeInto`
/// writes the rest in place, and in a debug run it is checked that it wrote all; `encode` makes a
/// copy. Where the environment decides, both are there.
pub proof fn law_encoding(config: Bindgen)
    ensures
        start_encoding(config) == "
                "@ + string_check(config) + "
                let size = arg.length;
                let ptr = wasm.__wbindgen_malloc(size);
                let offset = 0;
                {
                    const mem = getUint8Memory();
                    for (; offset < arg.length; offset++) {
                        const code = arg.charCodeAt(offset);
                        if (code > 0x7F) break;
                        mem[ptr + offset] = code;
                    }
                }
            "@,
        use_encode(config) == "
                "@ + start_encoding(config) + "
                if (offset !== arg.length) {
                    const buf = cachedTextEncoder.encode(arg.slice(offset));
                    ptr = wasm.__wbindgen_realloc(ptr, size, size = offset + buf.length);
                    getUint8Memory().set(buf, ptr + offset);
                    offset += buf.length;
                }
                WASM_VECTOR_LEN = offset;
                return ptr;
            "@,
        use_encode_into(config) == "
                "@ + start_encoding(config) + "
                if (offset !== arg.length) {
                    arg = arg.slice(offset);
                    ptr = wasm.__wbindgen_realloc(ptr, size, size = offset + arg.length * 3);
                    const view = getUint8Memory().subarray(ptr + offset, ptr + size);
                    const ret = cachedTextEncoder.encodeInto(arg, view);
                    "@ + (if config.debug {
            "if (ret.read != arg.length) throw new Error('failed to pass whole string');"@
        } else {
            ""@
        }) + "
                    offset += ret.written;
                }
                WASM_VECTOR_LEN = offset;
                return ptr;
            "@,
        pass_string_test(config) == "
                        let passStringToWasm;
                        if (typeof cachedTextEncoder.encodeInto === 'function') {
                            passStringToWasm = function(arg) { "@ + use_encode_into(config) + " };
                        } else {
                            passStringToWasm = function(arg) { "@ + use_encode(config) + " };
                        }
                    "@,
        forall|body: Seq<char>| #[trigger]
            pass_string(body) == "function passStringToWasm(arg) { "@ + body + " }"@,
{
}

/// On Node.js the memory is seen through a `Buffer`, and a new one is made where the memory has grown.
pub proof fn law_node_view(state: GlueView)
    ensures
        node_buffer_memory().key() == "getNodeBufferMemory"@,
        ({
            let name = "getNodeBufferMemory"@;
            let memory = if state.module.memories[state.memory].import is Some {
                "memory"@
            } else {
                "wasm.memory"@
            };
            state.steps(node_buffer_memory()) == seq![
                Step::Emit(
                    "
            let cache"@ + name + " = null;
            function "@ + name + "() {
                if (cache"@ + name + " === null || cache"@ + name + ".buffer !== "@ + memory
                        + ".buffer) {
                    cache"@ + name + " = "@ + "Buffer.from"@ + "("@ + memory + ".buffer);
                }
                return cache"@ + name + ";
            }
            "@,
                ),
            ]
        }),
{
}

/// Checks, and the values that the glue keeps for itself, stand alone.
pub proof fn law_plain_texts(state: GlueView)
    ensures
        state.steps(Helper::DoesNotExist) == seq![Step::Emit("
                function doesNotExist() {
                    throw new Error('imported function or type does not exist');
                }
            "@)],
        state.steps(Helper::AssertNum) == seq![Step::Emit("
            function _assertNum(n) {
                if (typeof(n) !== 'number') throw new Error('expected a number argument');
            }
            "@)],
        state.steps(Helper::AssertBool) == seq![Step::Emit("
            function _assertBoolean(n) {
                if (typeof(n) !== 'boolean') {
                    throw new Error('expected a boolean argument');
                }
            }
            "@)],
        state.steps(Helper::WasmVectorLen) == seq![Step::Emit("let WASM_VECTOR_LEN = 0;"@)],
        state.steps(Helper::AssertClass) == seq![Step::Emit("
            function _assertClass(instance, klass) {
                if (!(instance instanceof klass)) {
                    throw new Error(`expected instance of ${klass.name}`);
                }
                return instance.ptr;
            }
            "@)],
        state.steps(Helper::InheritedDescriptor) == seq![Step::Emit("
            function GetOwnOrInheritedPropertyDescriptor(obj, id) {
              while (obj) {
                let desc = Object.getOwnPropertyDescriptor(obj, id);
                if (desc) return desc;
                obj = Object.getPrototypeOf(obj);
              }
              return {}
            }
            "@)],
        state.steps(Helper::IsLikeNone) == seq![Step::Emit("
            function isLikeNone(x) {
                return x === undefined || x === null;
            }
        "@)],
        state.steps(Helper::DebugString) == seq![Step::Emit(DEBUG_STRING@)],
{
}

/// The functions that work on the heap and on the table of values, behind what they need.
pub proof fn law_value_texts(state: GlueView)
    ensures
        state.steps(Helper::HeapNext).last() == Step::Emit("let heap_next = heap.length;"@),
        state.steps(Helper::GetObject).last() == Step::Emit("function getObject(idx) { return heap[idx]; }"@),
        state.steps(Helper::BorrowedObjects).last() == Step::Emit("
            function addBorrowedObject(obj) {
                if (stack_pointer == 1) throw new Error('out of js stack');
                heap[--stack_pointer] = obj;
                return stack_pointer;
            }
            "@),
        state.steps(Helper::TakeObject).last() == Step::Emit("
            function takeObject(idx) {
                const ret = getObject(idx);
                dropObject(idx);
                return ret;
            }
            "@),
        state.steps(Helper::GlobalArgumentPtr).last() == Step::Emit("
            let cachedGlobalArgumentPtr = null;
            function globalArgumentPtr() {
                if (cachedGlobalArgumentPtr === null) {
                    cachedGlobalArgumentPtr = wasm.__wbindgen_global_argument_ptr();
                }
                return cachedGlobalArgumentPtr;
            }
            "@),
        state.steps(Helper::AddToAnyrefTable).last() == Step::Emit("
                function addToAnyrefTable(obj) {
                    const idx = wasm.__wbindgen_anyref_table_alloc();
                    wasm.__wbg_anyref_table.set(idx, obj);
                    return idx;
                }
            "@),
        state.steps(Helper::HandleError).last() == Step::Emit(
            if state.config.anyref {
                "
                function handleError(exnptr, e) {
                    const idx = addToAnyrefTable(e);
                    const view = getUint32Memory();
                    view[exnptr / 4] = 1;
                    view[exnptr / 4 + 1] = idx;
                }
                "@
            } else {
                "
                function handleError(exnptr, e) {
                    const view = getUint32Memory();
                    view[exnptr / 4] = 1;
                    view[exnptr / 4 + 1] = addHeapObject(e);
                }
                "@
            },
        ),
{
}

/// A number of 64 bits shares its memory with two halves of 32 bits.
pub proof fn law_shims(state: GlueView)
    ensures
        state.steps(Helper::U32Shim) == seq![
            Step::Emit("const "@ + "u32CvtShim"@ + " = new Uint32Array(2);"@),
        ],
        state.steps(Helper::Int64Shim).last() == Step::Emit(
            "const "@ + "int64CvtShim"@ + " = new BigInt64Array("@ + "u32CvtShim"@ + ".buffer);"@,
        ),
        state.steps(Helper::Uint64Shim).last() == Step::Emit(
            "const "@ + "uint64CvtShim"@ + " = new BigUint64Array("@ + "u32CvtShim"@ + ".buffer);"@,
        ),
{
}

/// Whether a list of steps exposes a helper.
pub open spec fn exposes(steps: Seq<Step>, helper: Helper) -> bool {
    steps.contains(Step::Expose(helper))
}

/// What works on the heap exposes it, what hands out places of it exposes the free list, and what
/// borrows values exposes the stack pointer.
pub proof fn law_heap_needs(state: GlueView)
    ensures
        exposes(state.steps(Helper::HeapNext), Helper::Heap),
        exposes(state.steps(Helper::GetObject), Helper::Heap),
        exposes(state.steps(Helper::DropRef), Helper::Heap),
        exposes(state.steps(Helper::DropRef), Helper::HeapNext),
        exposes(state.steps(Helper::AddHeapObject), Helper::Heap),
        exposes(state.steps(Helper::AddHeapObject), Helper::HeapNext),
        exposes(state.steps(Helper::BorrowedObjects), Helper::Heap),
        exposes(state.steps(Helper::BorrowedObjects), Helper::StackPointer),
        exposes(state.steps(Helper::TakeObject), Helper::GetObject),
        exposes(state.steps(Helper::TakeObject), Helper::DropRef),
{
    assert(state.steps(Helper::HeapNext)[0] == Step::Expose(Helper::Heap));
    assert(state.steps(Helper::GetObject)[0] == Step::Expose(Helper::Heap));
    assert(state.steps(Helper::DropRef)[0] == Step::Expose(Helper::Heap));
    assert(state.steps(Helper::DropRef)[1] == Step::Expose(Helper::HeapNext));
    assert(state.steps(Helper::AddHeapObject)[0] == Step::Expose(Helper::Heap));
    assert(state.steps(Helper::AddHeapObject)[1] == Step::Expose(Helper::HeapNext));
    assert(state.steps(Helper::BorrowedObjects)[0] == Step::Expose(Helper::Heap));
    assert(state.steps(Helper::BorrowedObjects)[1] == Step::Expose(Helper::StackPointer));
    assert(state.steps(Helper::TakeObject)[0] == Step::Expose(Helper::GetObject));
    assert(state.steps(Helper::TakeObject)[1] == Step::Expose(Helper::DropRef));
}

/// What passes or reads values of JavaScript uses the table of the module where that holds them,
/// and the heap of the glue where not; never both.
pub proof fn law_value_needs(state: GlueView)
    ensures
        ({
            let pass = state.steps(Helper::PassArrayJsValue);
            let read = state.steps(Helper::GetArrayJsValue);
            let handle = state.steps(Helper::HandleError);
            let anyref = state.config.anyref;
            &&& exposes(pass, Helper::AddToAnyrefTable) == anyref
            &&& exposes(pass, Helper::AddHeapObject) == !anyref
            &&& exposes(pass, uint32_memory())
            &&& exposes(pass, Helper::WasmVectorLen)
            &&& pass.contains(Step::Require("__wbindgen_malloc"@))
            &&& pass.last() == Step::Emit(
                if anyref {
                    PASS_ARRAY_JSVALUE_ANYREF@
                } else {
                    PASS_ARRAY_JSVALUE_HEAP@
                },
            )
            &&& exposes(read, Helper::AnyrefTable) == anyref
            &&& exposes(read, Helper::TakeObject) == !anyref
            &&& exposes(read, uint32_memory())
            &&& read.contains(Step::Require("__wbindgen_drop_anyref_slice"@)) == anyref
            &&& read[2] == Step::Emit(
                if anyref {
                    GET_ARRAY_JSVALUE_ANYREF@
                } else {
                    GET_ARRAY_JSVALUE_HEAP@
                },
            )
            &&& exposes(handle, Helper::AddToAnyrefTable) == anyref
            &&& exposes(handle, Helper::AddHeapObject) == !anyref
            &&& exposes(handle, uint32_memory())
            &&& handle.last() == Step::Emit(
                if anyref {
                    HANDLE_ERROR_ANYREF@
                } else {
                    HANDLE_ERROR_HEAP@
                },
            )
            &&& exposes(state.steps(Helper::AddToAnyrefTable), Helper::AnyrefTable)
            &&& state.steps(Helper::AddToAnyrefTable).contains(
                Step::Require("__wbindgen_anyref_table_alloc"@),
            )
        }),
{
    let pass = state.steps(Helper::PassArrayJsValue);
    let read = state.steps(Helper::GetArrayJsValue);
    let handle = state.steps(Helper::HandleError);
    let more = state.steps(Helper::AddToAnyrefTable);
    assert(pass[0] == Step::Require("__wbindgen_malloc"@));
    assert(pass[1] == Step::Expose(uint32_memory()));
    assert(pass[2] == Step::Expose(Helper::WasmVectorLen));
    assert(pass[3] == Step::Expose(
        if state.config.anyref {
            Helper::AddToAnyrefTable
        } else {
            Helper::AddHeapObject
        },
    ));
    assert(read[0] == Step::Expose(uint32_memory()));
    assert(read[1] == Step::Expose(
        if state.config.anyref {
            Helper::AnyrefTable
        } else {
            Helper::TakeObject
        },
    ));
    if state.config.anyref {
        assert(read[3] == Step::Require("__wbindgen_drop_anyref_slice"@));
    }
    assert(handle[0] == Step::Expose(uint32_memory()));
    assert(handle[1] == Step::Expose(
        if state.config.anyref {
            Helper::AddToAnyrefTable
        } else {
            Helper::AddHeapObject
        },
    ));
    assert(more[0] == Step::Expose(Helper::AnyrefTable));
    assert(more[1] == Step::Require("__wbindgen_anyref_table_alloc"@));
}

/// What passes strings tells how long they are, and asks the module for memory. On Node.js it writes
/// through a `Buffer`; elsewhere it uses a `TextEncoder`, and asks for more memory where what it got
/// is not enough. Numbers of 64 bits are taken apart into halves.
pub proof fn law_other_needs(state: GlueView)
    ensures
        ({
            let pass = state.steps(Helper::PassString);
            let node = state.config.mode is Node;
            &&& exposes(pass, Helper::WasmVectorLen)
            &&& pass.contains(Step::Require("__wbindgen_malloc"@))
            &&& exposes(pass, node_buffer_memory()) == node
            &&& exposes(pass, Helper::TextEncoder) == !node
            &&& exposes(pass, uint8_memory()) == !node
            &&& pass.contains(Step::Require("__wbindgen_realloc"@)) == !node
        }),
        exposes(state.steps(Helper::Int64Shim), Helper::U32Shim),
        exposes(state.steps(Helper::Uint64Shim), Helper::U32Shim),
        state.steps(Helper::GlobalArgumentPtr).contains(
            Step::Require("__wbindgen_global_argument_ptr"@),
        ),
        state.steps(Helper::TextEncoder) == seq![Step::Processor("TextEncoder"@)],
        state.steps(Helper::TextDecoder) == seq![Step::Processor("TextDecoder"@)],
        state.steps(Helper::AnyrefTable) == seq![Step::ExportAnyrefTable],
        state.steps(Helper::FunctionTable) == seq![Step::ExportFunctionTable],
{
    reveal_strlit("__wbindgen_malloc");
    reveal_strlit("__wbindgen_realloc");
    reveal_strlit("getNodeBufferMemory");
    reveal_strlit("getUint8Memory");
    let pass = state.steps(Helper::PassString);
    assert("__wbindgen_malloc"@.len() != "__wbindgen_realloc"@.len());
    assert("getNodeBufferMemory"@.len() != "getUint8Memory"@.len());
    assert(pass[0] == Step::Require("__wbindgen_malloc"@));
    assert(pass[1] == Step::Expose(Helper::WasmVectorLen));
    if state.config.mode is Node {
        assert(pass[2] == Step::Expose(node_buffer_memory()));
        assert(pass.len() == 4);
    } else {
        assert(pass[2] == Step::Expose(Helper::TextEncoder));
        assert(pass[3] == Step::Expose(uint8_memory()));
        assert(pass[4] == Step::Require("__wbindgen_realloc"@));
        assert(pass.len() == 6);
    }
    assert(state.steps(Helper::Int64Shim)[0] == Step::Expose(Helper::U32Shim));
    assert(state.steps(Helper::Uint64Shim)[0] == Step::Expose(Helper::U32Shim));
    assert(state.steps(Helper::GlobalArgumentPtr)[0] == Step::Require(
        "__wbindgen_global_argument_ptr"@,
    ));
}

/// A `TextEncoder` or a `TextDecoder` for UTF-8 is kept under a name of its own. On Node.js it is one
/// of `util`, which is imported; in browsers it is the global one. Where it is open where the glue
/// runs, it is the global one where there is one, and else the one of `util`.
pub proof fn law_text_processor(state: GlueView, name: Seq<char>)
    ensures
        ({
            let after = state.text_processor(name);
            let util = ImportNameView::Module { module: "util"@, name };
            let imported = state.import_name(util, Seq::empty());
            let browser = state.config.mode is Web || state.config.mode is NoModules
                || state.config.mode matches OutputMode::Bundler { browser_only: true };
            if state.config.mode is Node {
                after == (GlueView {
                    globals: with_item(
                        state.globals,
                        "let cached"@ + name + " = new "@ + imported.result->Ok_0 + "('utf-8');"@,
                    ),
                    ..imported.state
                })
            } else if browser {
                after == (GlueView {
                    globals: with_item(
                        state.globals,
                        "let cached"@ + name + " = new "@ + name + "('utf-8');"@,
                    ),
                    ..state
                })
            } else {
                after == (GlueView {
                    globals: with_item(
                        with_item(
                            state.globals,
                            "
                    const l"@ + name + " = typeof "@ + name
                                + " === 'undefined' ? \
                        require('util')."@ + name
                                + " : "@ + name + ";\
                "@,
                        ),
                        "let cached"@ + name + " = new l"@ + name + "('utf-8');"@,
                    ),
                    ..state
                })
            }
        }),
{
    reveal(GlueView::text_processor);
}

/// The table of JavaScript values is exported under a name of its own: the first there is. So is the
/// table of functions, which has to be the only one.
pub proof fn law_exported_tables(state: GlueView, first: usize)
    ensures
        state.module.is_first_table(TableKind::Anyref, first) ==> ({
            let after = state.export_anyref_table();
            &&& after.module.exports == state.module.exports.insert(
                state.module.next_export,
                ExportView { name: "__wbg_anyref_table"@, item: ExportItem::Table(first) },
            )
            &&& after == (GlueView { module: after.module, ..state })
        }),
        state.module.is_first_table(TableKind::Function, first) ==> ({
            let outcome = state.export_function_table();
            let several = exists|i: usize, j: usize|
                i != j && #[trigger] state.module.is_table(TableKind::Function, i)
                    && #[trigger] state.module.is_table(TableKind::Function, j);
            &&& several ==> outcome.state == state && outcome.result == Err::<(), _>(
                GlueErrorView::MultipleFunctionTables,
            )
            &&& !several ==> outcome.result is Ok && outcome.state.module.exports
                == state.module.exports.insert(
                state.module.next_export,
                ExportView { name: "__wbg_function_table"@, item: ExportItem::Table(first) },
            )
        }),
        !state.module.has_table(TableKind::Function) ==> state.export_function_table().result
            == Err::<(), _>(GlueErrorView::NoFunctionTable),
{
    reveal(GlueView::export_anyref_table);
    reveal(GlueView::export_function_table);
    let module = state.module;
    if module.is_first_table(TableKind::Anyref, first) {
        let chosen = module.first_table(TableKind::Anyref);
        assert(module.is_first_table(TableKind::Anyref, chosen));
        assert(module.is_table(TableKind::Anyref, chosen));
    }
    if module.is_first_table(TableKind::Function, first) {
        let chosen = module.first_table(TableKind::Function);
        assert(module.is_first_table(TableKind::Function, chosen));
        assert(module.is_table(TableKind::Function, chosen));
        assert(module.is_table(TableKind::Function, first));
    }
}

/// An expression that reads a value calls a function which the text of its helper defines, or is
/// the value itself where a table of the module holds it.
pub proof fn law_object_expressions(anyref: bool, place: Seq<char>)
    ensures
        object_taken(anyref, place) == (if anyref {
            place
        } else {
            "takeObject("@ + place + ")"@
        }),
        object_read(anyref, place) == (if anyref {
            place
        } else {
            "getObject("@ + place + ")"@
        }),
{
}

/// A function that is handed out for passing or reading strings or values is one that the text of
/// its helper defines.
pub proof fn law_defined()
    ensures
        holds(TAKE_OBJECT@, "function takeObject("@),
        holds(GET_OBJECT@, "function getObject("@),
        holds(PASS_ARRAY_JSVALUE_ANYREF@, "function passArrayJsValueToWasm("@),
        holds(PASS_ARRAY_JSVALUE_HEAP@, "function passArrayJsValueToWasm("@),
        holds(GET_ARRAY_JSVALUE_ANYREF@, "function getArrayJsValueFromWasm("@),
        holds(GET_ARRAY_JSVALUE_HEAP@, "function getArrayJsValueFromWasm("@),
        pass_name(VectorKind::String) == "passStringToWasm"@,
        get_name(VectorKind::String) == "getStringFromWasm"@,
        pass_name(VectorKind::Anyref) == "passArrayJsValueToWasm"@,
        get_name(VectorKind::Anyref) == "getArrayJsValueFromWasm"@,
{
    reveal_strlit("
            function takeObject(idx) {
                const ret = getObject(idx);
                dropObject(idx);
                return ret;
            }
            ");
    reveal_strlit("function takeObject(");
    assert(TAKE_OBJECT@.subrange(13, 33) =~= "function takeObject("@);
    assert(stands_at(TAKE_OBJECT@, "function takeObject("@, 13));
    reveal_strlit("function getObject(idx) { return heap[idx]; }");
    reveal_strlit("function getObject(");
    assert(GET_OBJECT@.subrange(0, 19) =~= "function getObject("@);
    assert(stands_at(GET_OBJECT@, "function getObject("@, 0));
    reveal_strlit("
                function passArrayJsValueToWasm(array) {
                    const ptr = wasm.__wbindgen_malloc(array.length * 4);
                    const mem = getUint32Memory();
                    for (let i = 0; i < array.length; i++) {
                        mem[ptr / 4 + i] = addToAnyrefTable(array[i]);
                    }
                    WASM_VECTOR_LEN = array.length;
                    return ptr;
                }
            ");
    reveal_strlit("function passArrayJsValueToWasm(");
    assert(PASS_ARRAY_JSVALUE_ANYREF@.subrange(17, 49) =~= "function passArrayJsValueToWasm("@);
    assert(stands_at(PASS_ARRAY_JSVALUE_ANYREF@, "function passArrayJsValueToWasm("@, 17));
    reveal_strlit("
                function passArrayJsValueToWasm(array) {
                    const ptr = wasm.__wbindgen_malloc(array.length * 4);
                    const mem = getUint32Memory();
                    for (let i = 0; i < array.length; i++) {
                        mem[ptr / 4 + i] = addHeapObject(array[i]);
                    }
                    WASM_VECTOR_LEN = array.length;
                    return ptr;
                }

            ");
    assert(PASS_ARRAY_JSVALUE_HEAP@.subrange(17, 49) =~= "function passArrayJsValueToWasm("@);
    assert(stands_at(PASS_ARRAY_JSVALUE_HEAP@, "function passArrayJsValueToWasm("@, 17));
    reveal_strlit("
                function getArrayJsValueFromWasm(ptr, len) {
                    const mem = getUint32Memory();
                    const slice = mem.subarray(ptr / 4, ptr / 4 + len);
                    const result = [];
                    for (let i = 0; i < slice.length; i++) {
                        result.push(wasm.__wbg_anyref_table.get(slice[i]));
                    }
                    wasm.__wbindgen_drop_anyref_slice(ptr, len);
                    return result;
                }
                ");
    reveal_strlit("function getArrayJsValueFromWasm(");
    assert(GET_ARRAY_JSVALUE_ANYREF@.subrange(17, 50) =~= "function getArrayJsValueFromWasm("@);
    assert(stands_at(GET_ARRAY_JSVALUE_ANYREF@, "function getArrayJsValueFromWasm("@, 17));
    reveal_strlit("
                function getArrayJsValueFromWasm(ptr, len) {
                    const mem = getUint32Memory();
                    const slice = mem.subarray(ptr / 4, ptr / 4 + len);
                    const result = [];
                    for (let i = 0; i < slice.length; i++) {
                        result.push(takeObject(slice[i]));
                    }
                    return result;
                }
                ");
    assert(GET_ARRAY_JSVALUE_HEAP@.subrange(17, 50) =~= "function getArrayJsValueFromWasm("@);
    assert(stands_at(GET_ARRAY_JSVALUE_HEAP@, "function getArrayJsValueFromWasm("@, 17));
}

} // verus!
