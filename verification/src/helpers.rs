//! The helpers: JavaScript that is part of the glue only where something needs it.
//!
//! What each helper consists of is stated once, by [`GlueView::steps`].
use crate::bindings::ImportNameView;
use crate::config::{Bindgen, VectorKind};
use crate::context::{done, failed, GlueView, Outcome};
use crate::error::{GlueError, GlueErrorView};
use crate::module::{ExportItem, ModuleView, TableKind};
use crate::snippets::{
    ADD_HEAP_OBJECT_0, ADD_HEAP_OBJECT_1, ADD_TO_ANYREF_TABLE, ARRAYGET_0, ARRAYGET_1, ARRAYGET_2,
    ARRAYGET_3, ARRAYGET_4, ASSERT_BOOL, ASSERT_CLASS, ASSERT_NUM, BORROWED_OBJECTS, DEBUG_STRING,
    DOES_NOT_EXIST, DROP_REF_0, DROP_REF_1, ENCODE_INTO_CHECK, GET_ARRAY_JSVALUE_ANYREF,
    GET_ARRAY_JSVALUE_HEAP, GET_INHERITED_DESCRIPTOR, GET_OBJECT, GET_STRING_0, GET_STRING_1,
    GLOBAL_ARGUMENT_PTR, HANDLE_ERROR_ANYREF, HANDLE_ERROR_HEAP, HEAP_0, HEAP_1, HEAP_CHECK,
    HEAP_FILL, HEAP_NEXT, HEAP_PUSH_0, HEAP_PUSH_1, INITIAL_HEAP_OFFSET, INITIAL_HEAP_VALUES,
    INITIAL_HEAP_VALUES_LEN, INT64_CVT_SHIM_0, INT64_CVT_SHIM_1, INT64_CVT_SHIM_2, IS_LIKE_NONE,
    MEMVIEW_0, MEMVIEW_1, MEMVIEW_2, MEMVIEW_3, MEMVIEW_4, MEMVIEW_5, MEMVIEW_6, MEMVIEW_7,
    MEMVIEW_8, MEMVIEW_9, PASS_ARRAY_0, PASS_ARRAY_1, PASS_ARRAY_2, PASS_ARRAY_3, PASS_ARRAY_4,
    PASS_ARRAY_JSVALUE_ANYREF, PASS_ARRAY_JSVALUE_HEAP, PASS_STRING_0, PASS_STRING_1,
    PASS_STRING_CHECK, PASS_STRING_NODE_0, PASS_STRING_NODE_1, PASS_STRING_TEST_0,
    PASS_STRING_TEST_1, PASS_STRING_TEST_2, PROCESSOR_BROWSER_0, PROCESSOR_BROWSER_1,
    PROCESSOR_BROWSER_2, PROCESSOR_FOUND_0, PROCESSOR_FOUND_1, PROCESSOR_FOUND_2,
    PROCESSOR_LOOKUP_0, PROCESSOR_LOOKUP_1, PROCESSOR_LOOKUP_2, PROCESSOR_LOOKUP_3,
    PROCESSOR_LOOKUP_4, PROCESSOR_NODE_0, PROCESSOR_NODE_1, PROCESSOR_NODE_2, STACK_POINTER_0,
    STACK_POINTER_1, START_ENCODING_0, START_ENCODING_1, TAKE_OBJECT, U32_CVT_SHIM_0,
    U32_CVT_SHIM_1, UINT64_CVT_SHIM_0, UINT64_CVT_SHIM_1, UINT64_CVT_SHIM_2, USE_ENCODE_0,
    USE_ENCODE_1, USE_ENCODE_INTO_0, USE_ENCODE_INTO_1, USE_ENCODE_INTO_2, WASM_VECTOR_LEN,
};
use crate::text::decimal;
use vstd::prelude::*;

verus! {

/// A helper.
pub enum Helper {
    DoesNotExist,
    DropRef,
    Heap,
    HeapNext,
    GetObject,
    AssertNum,
    AssertBool,
    WasmVectorLen,
    PassString,
    PassArrayJsValue,
    /// A function that passes a typed array of items of a size.
    PassArray { name: Seq<char>, delegate: Seq<char>, size: nat },
    TextEncoder,
    TextDecoder,
    GetString,
    GetArrayJsValue,
    /// A function that reads a typed array of items of a size.
    GetArray { name: Seq<char>, memory: Seq<char>, size: nat },
    /// A function that gives a view of the memory.
    MemoryView { name: Seq<char>, js: Seq<char> },
    AssertClass,
    StackPointer,
    BorrowedObjects,
    TakeObject,
    AddHeapObject,
    HandleError,
    GlobalArgumentPtr,
    InheritedDescriptor,
    U32Shim,
    Int64Shim,
    Uint64Shim,
    IsLikeNone,
    AnyrefTable,
    AddToAnyrefTable,
    DebugString,
    FunctionTable,
}

/// One step on the way to a helper.
pub enum Step {
    /// Another helper is exposed.
    Expose(Helper),
    /// An internal export of the module is required.
    Require(Seq<char>),
    /// An item is added to the JavaScript.
    Emit(Seq<char>),
    /// `TextEncoder` or `TextDecoder` is made available.
    Processor(Seq<char>),
    /// The first table of JavaScript values is exported.
    ExportAnyrefTable,
    /// The table of functions is exported.
    ExportFunctionTable,
}

pub open spec fn node_buffer_memory() -> Helper {
    Helper::MemoryView { name: "getNodeBufferMemory"@, js: "Buffer.from"@ }
}

pub open spec fn int8_memory() -> Helper {
    Helper::MemoryView { name: "getInt8Memory"@, js: "new Int8Array"@ }
}

pub open spec fn uint8_memory() -> Helper {
    Helper::MemoryView { name: "getUint8Memory"@, js: "new Uint8Array"@ }
}

pub open spec fn clamped_uint8_memory() -> Helper {
    Helper::MemoryView { name: "getUint8ClampedMemory"@, js: "new Uint8ClampedArray"@ }
}

pub open spec fn int16_memory() -> Helper {
    Helper::MemoryView { name: "getInt16Memory"@, js: "new Int16Array"@ }
}

pub open spec fn uint16_memory() -> Helper {
    Helper::MemoryView { name: "getUint16Memory"@, js: "new Uint16Array"@ }
}

pub open spec fn int32_memory() -> Helper {
    Helper::MemoryView { name: "getInt32Memory"@, js: "new Int32Array"@ }
}

pub open spec fn uint32_memory() -> Helper {
    Helper::MemoryView { name: "getUint32Memory"@, js: "new Uint32Array"@ }
}

pub open spec fn int64_memory() -> Helper {
    Helper::MemoryView { name: "getInt64Memory"@, js: "new BigInt64Array"@ }
}

pub open spec fn uint64_memory() -> Helper {
    Helper::MemoryView { name: "getUint64Memory"@, js: "new BigUint64Array"@ }
}

pub open spec fn f32_memory() -> Helper {
    Helper::MemoryView { name: "getFloat32Memory"@, js: "new Float32Array"@ }
}

pub open spec fn f64_memory() -> Helper {
    Helper::MemoryView { name: "getFloat64Memory"@, js: "new Float64Array"@ }
}

pub open spec fn pass_array8() -> Helper {
    Helper::PassArray { name: "passArray8ToWasm"@, delegate: "getUint8Memory"@, size: 1 }
}

pub open spec fn pass_array16() -> Helper {
    Helper::PassArray { name: "passArray16ToWasm"@, delegate: "getUint16Memory"@, size: 2 }
}

pub open spec fn pass_array32() -> Helper {
    Helper::PassArray { name: "passArray32ToWasm"@, delegate: "getUint32Memory"@, size: 4 }
}

pub open spec fn pass_array64() -> Helper {
    Helper::PassArray { name: "passArray64ToWasm"@, delegate: "getUint64Memory"@, size: 8 }
}

pub open spec fn pass_array_f32() -> Helper {
    Helper::PassArray { name: "passArrayF32ToWasm"@, delegate: "getFloat32Memory"@, size: 4 }
}

pub open spec fn pass_array_f64() -> Helper {
    Helper::PassArray { name: "passArrayF64ToWasm"@, delegate: "getFloat64Memory"@, size: 8 }
}

pub open spec fn get_array_i8() -> Helper {
    Helper::GetArray { name: "getArrayI8FromWasm"@, memory: "getInt8Memory"@, size: 1 }
}

pub open spec fn get_array_u8() -> Helper {
    Helper::GetArray { name: "getArrayU8FromWasm"@, memory: "getUint8Memory"@, size: 1 }
}

pub open spec fn get_clamped_array_u8() -> Helper {
    Helper::GetArray {
        name: "getClampedArrayU8FromWasm"@,
        memory: "getUint8ClampedMemory"@,
        size: 1,
    }
}

pub open spec fn get_array_i16() -> Helper {
    Helper::GetArray { name: "getArrayI16FromWasm"@, memory: "getInt16Memory"@, size: 2 }
}

pub open spec fn get_array_u16() -> Helper {
    Helper::GetArray { name: "getArrayU16FromWasm"@, memory: "getUint16Memory"@, size: 2 }
}

pub open spec fn get_array_i32() -> Helper {
    Helper::GetArray { name: "getArrayI32FromWasm"@, memory: "getInt32Memory"@, size: 4 }
}

pub open spec fn get_array_u32() -> Helper {
    Helper::GetArray { name: "getArrayU32FromWasm"@, memory: "getUint32Memory"@, size: 4 }
}

pub open spec fn get_array_i64() -> Helper {
    Helper::GetArray { name: "getArrayI64FromWasm"@, memory: "getInt64Memory"@, size: 8 }
}

pub open spec fn get_array_u64() -> Helper {
    Helper::GetArray { name: "getArrayU64FromWasm"@, memory: "getUint64Memory"@, size: 8 }
}

pub open spec fn get_array_f32() -> Helper {
    Helper::GetArray { name: "getArrayF32FromWasm"@, memory: "getFloat32Memory"@, size: 4 }
}

pub open spec fn get_array_f64() -> Helper {
    Helper::GetArray { name: "getArrayF64FromWasm"@, memory: "getFloat64Memory"@, size: 8 }
}

/// The view of the memory for items of that kind.
pub open spec fn kind_memory(kind: VectorKind) -> Helper {
    match kind {
        VectorKind::String => uint8_memory(),
        VectorKind::I8 => int8_memory(),
        VectorKind::U8 => uint8_memory(),
        VectorKind::ClampedU8 => clamped_uint8_memory(),
        VectorKind::I16 => int16_memory(),
        VectorKind::U16 => uint16_memory(),
        VectorKind::I32 => int32_memory(),
        VectorKind::U32 => uint32_memory(),
        VectorKind::I64 => int64_memory(),
        VectorKind::U64 => uint64_memory(),
        VectorKind::F32 => f32_memory(),
        VectorKind::F64 => f64_memory(),
        VectorKind::Anyref => uint32_memory(),
    }
}

/// The steps that lead to the function that passes items of that kind.
pub open spec fn pass_steps(kind: VectorKind) -> Seq<Step> {
    match kind {
        VectorKind::String => seq![Step::Expose(Helper::PassString)],
        VectorKind::I8 => seq![Step::Expose(uint8_memory()), Step::Expose(pass_array8())],
        VectorKind::U8 => seq![Step::Expose(uint8_memory()), Step::Expose(pass_array8())],
        VectorKind::ClampedU8 => seq![Step::Expose(uint8_memory()), Step::Expose(pass_array8())],
        VectorKind::I16 => seq![Step::Expose(uint16_memory()), Step::Expose(pass_array16())],
        VectorKind::U16 => seq![Step::Expose(uint16_memory()), Step::Expose(pass_array16())],
        VectorKind::I32 => seq![Step::Expose(uint32_memory()), Step::Expose(pass_array32())],
        VectorKind::U32 => seq![Step::Expose(uint32_memory()), Step::Expose(pass_array32())],
        VectorKind::I64 => seq![Step::Expose(uint64_memory()), Step::Expose(pass_array64())],
        VectorKind::U64 => seq![Step::Expose(uint64_memory()), Step::Expose(pass_array64())],
        VectorKind::F32 => seq![Step::Expose(f32_memory()), Step::Expose(pass_array_f32())],
        VectorKind::F64 => seq![Step::Expose(f64_memory()), Step::Expose(pass_array_f64())],
        VectorKind::Anyref => seq![Step::Expose(Helper::PassArrayJsValue)],
    }
}

/// The name of the function that passes items of that kind.
pub open spec fn pass_name(kind: VectorKind) -> Seq<char> {
    match kind {
        VectorKind::String => "passStringToWasm"@,
        VectorKind::I8 => pass_array8().key(),
        VectorKind::U8 => pass_array8().key(),
        VectorKind::ClampedU8 => pass_array8().key(),
        VectorKind::I16 => pass_array16().key(),
        VectorKind::U16 => pass_array16().key(),
        VectorKind::I32 => pass_array32().key(),
        VectorKind::U32 => pass_array32().key(),
        VectorKind::I64 => pass_array64().key(),
        VectorKind::U64 => pass_array64().key(),
        VectorKind::F32 => pass_array_f32().key(),
        VectorKind::F64 => pass_array_f64().key(),
        VectorKind::Anyref => "passArrayJsValueToWasm"@,
    }
}

/// The steps that lead to the function that reads items of that kind.
pub open spec fn get_steps(kind: VectorKind) -> Seq<Step> {
    match kind {
        VectorKind::String => seq![Step::Expose(Helper::GetString)],
        VectorKind::I8 => seq![Step::Expose(int8_memory()), Step::Expose(get_array_i8())],
        VectorKind::U8 => seq![Step::Expose(uint8_memory()), Step::Expose(get_array_u8())],
        VectorKind::ClampedU8 => seq![
            Step::Expose(clamped_uint8_memory()),
            Step::Expose(get_clamped_array_u8()),
        ],
        VectorKind::I16 => seq![Step::Expose(int16_memory()), Step::Expose(get_array_i16())],
        VectorKind::U16 => seq![Step::Expose(uint16_memory()), Step::Expose(get_array_u16())],
        VectorKind::I32 => seq![Step::Expose(int32_memory()), Step::Expose(get_array_i32())],
        VectorKind::U32 => seq![Step::Expose(uint32_memory()), Step::Expose(get_array_u32())],
        VectorKind::I64 => seq![Step::Expose(int64_memory()), Step::Expose(get_array_i64())],
        VectorKind::U64 => seq![Step::Expose(uint64_memory()), Step::Expose(get_array_u64())],
        VectorKind::F32 => seq![Step::Expose(f32_memory()), Step::Expose(get_array_f32())],
        VectorKind::F64 => seq![Step::Expose(f64_memory()), Step::Expose(get_array_f64())],
        VectorKind::Anyref => seq![Step::Expose(Helper::GetArrayJsValue)],
    }
}

/// The name of the function that reads items of that kind.
pub open spec fn get_name(kind: VectorKind) -> Seq<char> {
    match kind {
        VectorKind::String => "getStringFromWasm"@,
        VectorKind::I8 => get_array_i8().key(),
        VectorKind::U8 => get_array_u8().key(),
        VectorKind::ClampedU8 => get_clamped_array_u8().key(),
        VectorKind::I16 => get_array_i16().key(),
        VectorKind::U16 => get_array_u16().key(),
        VectorKind::I32 => get_array_i32().key(),
        VectorKind::U32 => get_array_u32().key(),
        VectorKind::I64 => get_array_i64().key(),
        VectorKind::U64 => get_array_u64().key(),
        VectorKind::F32 => get_array_f32().key(),
        VectorKind::F64 => get_array_f64().key(),
        VectorKind::Anyref => "getArrayJsValueFromWasm"@,
    }
}

/// Whether a result is an error, and which.
pub open spec fn no_name(result: Result<&'static str, GlueError>) -> Result<(), GlueErrorView> {
    match result {
        Ok(_) => Ok(()),
        Err(error) => Err(error@),
    }
}

impl Helper {
    /// The name under which it is noted that the helper is exposed.
    pub open spec fn key(self) -> Seq<char> {
        match self {
            Helper::DoesNotExist => "does_not_exist"@,
            Helper::DropRef => "drop_ref"@,
            Helper::Heap => "heap"@,
            Helper::HeapNext => "heap_next"@,
            Helper::GetObject => "get_object"@,
            Helper::AssertNum => "assert_num"@,
            Helper::AssertBool => "assert_bool"@,
            Helper::WasmVectorLen => "wasm_vector_len"@,
            Helper::PassString => "pass_string_to_wasm"@,
            Helper::PassArrayJsValue => "pass_array_jsvalue"@,
            Helper::PassArray { name, delegate, size } => name,
            Helper::TextEncoder => "text_encoder"@,
            Helper::TextDecoder => "text_decoder"@,
            Helper::GetString => "get_string_from_wasm"@,
            Helper::GetArrayJsValue => "get_array_js_value_from_wasm"@,
            Helper::GetArray { name, memory, size } => name,
            Helper::MemoryView { name, js } => name,
            Helper::AssertClass => "assert_class"@,
            Helper::StackPointer => "stack_pointer"@,
            Helper::BorrowedObjects => "borrowed_objects"@,
            Helper::TakeObject => "take_object"@,
            Helper::AddHeapObject => "add_heap_object"@,
            Helper::HandleError => "handle_error"@,
            Helper::GlobalArgumentPtr => "global_argument_ptr"@,
            Helper::InheritedDescriptor => "get_inherited_descriptor"@,
            Helper::U32Shim => "u32CvtShim"@,
            Helper::Int64Shim => "int64CvtShim"@,
            Helper::Uint64Shim => "uint64CvtShim"@,
            Helper::IsLikeNone => "is_like_none"@,
            Helper::AnyrefTable => "anyref_table"@,
            Helper::AddToAnyrefTable => "add_to_anyref_table"@,
            Helper::DebugString => "debug_string"@,
            Helper::FunctionTable => "wbg-function-table"@,
        }
    }

    /// The layer of a helper: it uses helpers of lower layers only.
    pub open spec fn layer(self) -> nat {
        match self {
            Helper::HeapNext => 1,
            Helper::GetObject => 1,
            Helper::BorrowedObjects => 1,
            Helper::Int64Shim => 1,
            Helper::Uint64Shim => 1,
            Helper::AddToAnyrefTable => 1,
            Helper::PassArray { name, delegate, size } => 1,
            Helper::PassString => 1,
            Helper::GetString => 1,
            Helper::DropRef => 2,
            Helper::AddHeapObject => 2,
            Helper::TakeObject => 3,
            Helper::PassArrayJsValue => 3,
            Helper::HandleError => 3,
            Helper::GetArrayJsValue => 4,
            _ => 0,
        }
    }
}

impl Outcome<()> {
    /// A step is performed, unless one failed before.
    pub open spec fn and(self, layer: nat, step: Step) -> Outcome<()> {
        if self.result is Err {
            self
        } else {
            self.state.step(layer, step)
        }
    }
}

/// The layer above all helpers.
pub open spec fn top_layer() -> nat {
    5
}

/// The check that a string is passed.
pub open spec fn string_check(config: Bindgen) -> Seq<char> {
    if config.debug {
        PASS_STRING_CHECK@
    } else {
        ""@
    }
}

/// Passes a string on Node.js.
pub open spec fn pass_string_node(config: Bindgen) -> Seq<char> {
    PASS_STRING_NODE_0@ + string_check(config) + PASS_STRING_NODE_1@
}

/// Writes the characters of a string up to the first that is not ASCII.
pub open spec fn start_encoding(config: Bindgen) -> Seq<char> {
    START_ENCODING_0@ + string_check(config) + START_ENCODING_1@
}

/// Passes a string by `TextEncoder.encode`.
pub open spec fn use_encode(config: Bindgen) -> Seq<char> {
    USE_ENCODE_0@ + start_encoding(config) + USE_ENCODE_1@
}

/// Passes a string by `TextEncoder.encodeInto`.
pub open spec fn use_encode_into(config: Bindgen) -> Seq<char> {
    USE_ENCODE_INTO_0@ + start_encoding(config) + USE_ENCODE_INTO_1@ + (if config.debug {
        ENCODE_INTO_CHECK@
    } else {
        ""@
    }) + USE_ENCODE_INTO_2@
}

/// A function with that body that passes a string.
pub open spec fn pass_string(body: Seq<char>) -> Seq<char> {
    PASS_STRING_0@ + body + PASS_STRING_1@
}

/// Passes a string in the way that the environment allows.
pub open spec fn pass_string_test(config: Bindgen) -> Seq<char> {
    PASS_STRING_TEST_0@ + use_encode_into(config) + PASS_STRING_TEST_1@ + use_encode(config)
        + PASS_STRING_TEST_2@
}

/// A function that passes a typed array.
pub open spec fn pass_array(name: Seq<char>, delegate: Seq<char>, size: nat) -> Seq<char> {
    PASS_ARRAY_0@ + name + PASS_ARRAY_1@ + decimal(size) + PASS_ARRAY_2@ + delegate + PASS_ARRAY_3@
        + decimal(size) + PASS_ARRAY_4@
}

/// A function that reads a typed array.
pub open spec fn get_array(name: Seq<char>, memory: Seq<char>, size: nat) -> Seq<char> {
    ARRAYGET_0@ + name + ARRAYGET_1@ + memory + ARRAYGET_2@ + decimal(size) + ARRAYGET_3@ + decimal(
        size,
    ) + ARRAYGET_4@
}

/// A function that gives a view of the memory.
pub open spec fn memory_view(name: Seq<char>, js: Seq<char>, memory: Seq<char>) -> Seq<char> {
    MEMVIEW_0@ + name + MEMVIEW_1@ + name + MEMVIEW_2@ + name + MEMVIEW_3@ + name + MEMVIEW_4@
        + memory + MEMVIEW_5@ + name + MEMVIEW_6@ + js + MEMVIEW_7@ + memory + MEMVIEW_8@ + name
        + MEMVIEW_9@
}

/// A function that reads a string; memory that threads share has to be copied.
pub open spec fn get_string(shared: bool) -> Seq<char> {
    GET_STRING_0@ + (if shared {
        "slice"@
    } else {
        "subarray"@
    }) + GET_STRING_1@
}

/// A function that puts a value on the heap.
pub open spec fn add_heap_object(config: Bindgen) -> Seq<char> {
    ADD_HEAP_OBJECT_0@ + (if config.debug {
        HEAP_CHECK@
    } else {
        ""@
    }) + ADD_HEAP_OBJECT_1@
}

impl GlueView {
    /// The steps that lead to a helper.
    pub open spec fn steps(self, helper: Helper) -> Seq<Step> {
        match helper {
            Helper::DoesNotExist => seq![Step::Emit(DOES_NOT_EXIST@)],
            Helper::DropRef => seq![
                Step::Expose(Helper::Heap),
                Step::Expose(Helper::HeapNext),
                Step::Emit(
                    DROP_REF_0@ + decimal(
                        (INITIAL_HEAP_OFFSET + INITIAL_HEAP_VALUES_LEN) as nat,
                    ) + DROP_REF_1@,
                ),
            ],
            Helper::Heap => seq![
                Step::Emit(HEAP_0@ + decimal(INITIAL_HEAP_OFFSET as nat) + HEAP_1@),
                Step::Emit(HEAP_FILL@),
                Step::Emit(HEAP_PUSH_0@ + INITIAL_HEAP_VALUES@ + HEAP_PUSH_1@),
            ],
            Helper::HeapNext => seq![Step::Expose(Helper::Heap), Step::Emit(HEAP_NEXT@)],
            Helper::GetObject => seq![Step::Expose(Helper::Heap), Step::Emit(GET_OBJECT@)],
            Helper::AssertNum => seq![Step::Emit(ASSERT_NUM@)],
            Helper::AssertBool => seq![Step::Emit(ASSERT_BOOL@)],
            Helper::WasmVectorLen => seq![Step::Emit(WASM_VECTOR_LEN@)],
            Helper::PassString => self.pass_string_steps(),
            Helper::PassArrayJsValue => if self.config.anyref {
                seq![
                    Step::Require("__wbindgen_malloc"@),
                    Step::Expose(uint32_memory()),
                    Step::Expose(Helper::WasmVectorLen),
                    Step::Expose(Helper::AddToAnyrefTable),
                    Step::Emit(PASS_ARRAY_JSVALUE_ANYREF@),
                ]
            } else {
                seq![
                    Step::Require("__wbindgen_malloc"@),
                    Step::Expose(uint32_memory()),
                    Step::Expose(Helper::WasmVectorLen),
                    Step::Expose(Helper::AddHeapObject),
                    Step::Emit(PASS_ARRAY_JSVALUE_HEAP@),
                ]
            },
            Helper::PassArray { name, delegate, size } => seq![
                Step::Require("__wbindgen_malloc"@),
                Step::Expose(Helper::WasmVectorLen),
                Step::Emit(pass_array(name, delegate, size)),
            ],
            Helper::TextEncoder => seq![Step::Processor("TextEncoder"@)],
            Helper::TextDecoder => seq![Step::Processor("TextDecoder"@)],
            Helper::GetString => seq![
                Step::Expose(Helper::TextDecoder),
                Step::Expose(uint8_memory()),
                Step::Emit(get_string(self.memory_entry().limits.shared)),
            ],
            Helper::GetArrayJsValue => if self.config.anyref {
                seq![
                    Step::Expose(uint32_memory()),
                    Step::Expose(Helper::AnyrefTable),
                    Step::Emit(GET_ARRAY_JSVALUE_ANYREF@),
                    Step::Require("__wbindgen_drop_anyref_slice"@),
                ]
            } else {
                seq![
                    Step::Expose(uint32_memory()),
                    Step::Expose(Helper::TakeObject),
                    Step::Emit(GET_ARRAY_JSVALUE_HEAP@),
                ]
            },
            Helper::GetArray { name, memory, size } => seq![
                Step::Emit(get_array(name, memory, size)),
            ],
            Helper::MemoryView { name, js } => seq![
                Step::Emit(memory_view(name, js, self.memory_name())),
            ],
            Helper::AssertClass => seq![Step::Emit(ASSERT_CLASS@)],
            Helper::StackPointer => seq![
                Step::Emit(
                    STACK_POINTER_0@ + decimal(INITIAL_HEAP_OFFSET as nat) + STACK_POINTER_1@,
                ),
            ],
            Helper::BorrowedObjects => seq![
                Step::Expose(Helper::Heap),
                Step::Expose(Helper::StackPointer),
                Step::Emit(BORROWED_OBJECTS@),
            ],
            Helper::TakeObject => seq![
                Step::Expose(Helper::GetObject),
                Step::Expose(Helper::DropRef),
                Step::Emit(TAKE_OBJECT@),
            ],
            Helper::AddHeapObject => seq![
                Step::Expose(Helper::Heap),
                Step::Expose(Helper::HeapNext),
                Step::Emit(add_heap_object(self.config)),
            ],
            Helper::HandleError => if self.config.anyref {
                seq![
                    Step::Expose(uint32_memory()),
                    Step::Expose(Helper::AddToAnyrefTable),
                    Step::Emit(HANDLE_ERROR_ANYREF@),
                ]
            } else {
                seq![
                    Step::Expose(uint32_memory()),
                    Step::Expose(Helper::AddHeapObject),
                    Step::Emit(HANDLE_ERROR_HEAP@),
                ]
            },
            Helper::GlobalArgumentPtr => seq![
                Step::Require("__wbindgen_global_argument_ptr"@),
                Step::Emit(GLOBAL_ARGUMENT_PTR@),
            ],
            Helper::InheritedDescriptor => seq![Step::Emit(GET_INHERITED_DESCRIPTOR@)],
            Helper::U32Shim => seq![
                Step::Emit(U32_CVT_SHIM_0@ + "u32CvtShim"@ + U32_CVT_SHIM_1@),
            ],
            Helper::Int64Shim => seq![
                Step::Expose(Helper::U32Shim),
                Step::Emit(
                    INT64_CVT_SHIM_0@ + "int64CvtShim"@ + INT64_CVT_SHIM_1@ + "u32CvtShim"@
                        + INT64_CVT_SHIM_2@,
                ),
            ],
            Helper::Uint64Shim => seq![
                Step::Expose(Helper::U32Shim),
                Step::Emit(
                    UINT64_CVT_SHIM_0@ + "uint64CvtShim"@ + UINT64_CVT_SHIM_1@ + "u32CvtShim"@
                        + UINT64_CVT_SHIM_2@,
                ),
            ],
            Helper::IsLikeNone => seq![Step::Emit(IS_LIKE_NONE@)],
            Helper::AnyrefTable => seq![Step::ExportAnyrefTable],
            Helper::AddToAnyrefTable => seq![
                Step::Expose(Helper::AnyrefTable),
                Step::Require("__wbindgen_anyref_table_alloc"@),
                Step::Emit(ADD_TO_ANYREF_TABLE@),
            ],
            Helper::DebugString => seq![Step::Emit(DEBUG_STRING@)],
            Helper::FunctionTable => seq![Step::ExportFunctionTable],
        }
    }

    /// The steps that lead to the function that passes strings.
    pub open spec fn pass_string_steps(self) -> Seq<Step> {
        if self.config.mode.nodejs() {
            seq![
                Step::Require("__wbindgen_malloc"@),
                Step::Expose(Helper::WasmVectorLen),
                Step::Expose(node_buffer_memory()),
                Step::Emit(pass_string_node(self.config)),
            ]
        } else if self.config.encode_into is Always && !self.memory_entry().limits.shared {
            seq![
                Step::Require("__wbindgen_malloc"@),
                Step::Expose(Helper::WasmVectorLen),
                Step::Expose(Helper::TextEncoder),
                Step::Expose(uint8_memory()),
                Step::Require("__wbindgen_realloc"@),
                Step::Emit(pass_string(use_encode_into(self.config))),
            ]
        } else if self.config.encode_into is Test && !self.memory_entry().limits.shared {
            seq![
                Step::Require("__wbindgen_malloc"@),
                Step::Expose(Helper::WasmVectorLen),
                Step::Expose(Helper::TextEncoder),
                Step::Expose(uint8_memory()),
                Step::Require("__wbindgen_realloc"@),
                Step::Emit(pass_string_test(self.config)),
            ]
        } else {
            seq![
                Step::Require("__wbindgen_malloc"@),
                Step::Expose(Helper::WasmVectorLen),
                Step::Expose(Helper::TextEncoder),
                Step::Expose(uint8_memory()),
                Step::Require("__wbindgen_realloc"@),
                Step::Emit(pass_string(use_encode(self.config))),
            ]
        }
    }

    /// A helper is exposed: its steps are performed the first time.
    #[verifier::opaque]
    pub open spec fn expose(self, helper: Helper) -> Outcome<()>
        decreases helper.layer(), self.steps(helper).len() + 1,
    {
        if self.is_exposed(helper.key()) {
            done(self, ())
        } else {
            self.mark(helper.key()).perform(helper.layer(), self.steps(helper))
        }
    }

    /// Steps are performed one after the other, up to the first that fails.
    #[verifier::opaque]
    pub open spec fn perform(self, layer: nat, steps: Seq<Step>) -> Outcome<()>
        decreases layer, steps.len(),
    {
        if steps.len() == 0 {
            done(self, ())
        } else {
            let before = self.perform(layer, steps.drop_last());
            if before.result is Err {
                before
            } else {
                before.state.step(layer, steps.last())
            }
        }
    }

    /// One step is performed. Only helpers of lower layers than `layer` are exposed.
    pub open spec fn step(self, layer: nat, step: Step) -> Outcome<()>
        decreases layer, 0nat,
    {
        match step {
            Step::Expose(helper) => if helper.layer() < layer {
                self.expose(helper)
            } else {
                done(self, ())
            },
            Step::Require(name) => self.require_internal_export(name),
            Step::Emit(item) => done(self.emit(item), ()),
            Step::Processor(name) => done(self.text_processor(name), ()),
            Step::ExportAnyrefTable => done(self.export_anyref_table(), ()),
            Step::ExportFunctionTable => self.export_function_table(),
        }
    }

    /// Steps are performed that belong to no helper.
    pub open spec fn run(self, steps: Seq<Step>) -> Outcome<()> {
        self.perform(top_layer(), steps)
    }

    /// `TextEncoder` or `TextDecoder` is made available.
    #[verifier::opaque]
    pub open spec fn text_processor(self, name: Seq<char>) -> GlueView {
        if self.config.mode.nodejs() {
            let import = ImportNameView::Module { module: "util"@, name };
            let local = self.import_name(import, Seq::empty());
            local.state.emit(
                PROCESSOR_NODE_0@ + name + PROCESSOR_NODE_1@ + local.result->Ok_0
                    + PROCESSOR_NODE_2@,
            )
        } else if !self.config.mode.always_run_in_browser() {
            self.emit(
                PROCESSOR_LOOKUP_0@ + name + PROCESSOR_LOOKUP_1@ + name + PROCESSOR_LOOKUP_2@ + name
                    + PROCESSOR_LOOKUP_3@ + name + PROCESSOR_LOOKUP_4@,
            ).emit(PROCESSOR_FOUND_0@ + name + PROCESSOR_FOUND_1@ + name + PROCESSOR_FOUND_2@)
        } else {
            self.emit(
                PROCESSOR_BROWSER_0@ + name + PROCESSOR_BROWSER_1@ + name + PROCESSOR_BROWSER_2@,
            )
        }
    }

    /// The first table of JavaScript values is exported.
    #[verifier::opaque]
    pub open spec fn export_anyref_table(self) -> GlueView {
        GlueView {
            module: self.module.export_item(
                "__wbg_anyref_table"@,
                ExportItem::Table(self.module.first_table(TableKind::Anyref)),
            ),
            ..self
        }
    }

    /// The table of functions is exported, which has to be the only one.
    #[verifier::opaque]
    pub open spec fn export_function_table(self) -> Outcome<()> {
        let first = self.module.first_table(TableKind::Function);
        if !self.module.has_table(TableKind::Function) {
            failed(self, GlueErrorView::NoFunctionTable)
        } else if exists|i: usize|
            i != first && #[trigger] self.module.is_table(TableKind::Function, i) {
            failed(self, GlueErrorView::MultipleFunctionTables)
        } else {
            done(
                GlueView {
                    module: self.module.export_item(
                        "__wbg_function_table"@,
                        ExportItem::Table(first),
                    ),
                    ..self
                },
                (),
            )
        }
    }

    /// Whether a change from `self` to `after` is one that exposing helpers can make: exposed
    /// helpers stay exposed, and it leaves alone what the module holds but for its exports, and
    /// what has nothing to do with helpers.
    pub open spec fn frames(self, after: GlueView) -> bool {
        &&& after.open() == self.open()
        &&& self.open() ==> self.exposed->0.subset_of(after.exposed->0)
        &&& after.config == self.config
        &&& after.memory == self.memory
        &&& after.module == ModuleView {
            exports: after.module.exports,
            next_export: after.module.next_export,
            ..self.module
        }
        &&& after.typescript == self.typescript
        &&& after.wasm_imports == self.wasm_imports
        &&& after.classes == self.classes
        &&& after.dependencies == self.dependencies
    }

    /// Whether the table of JavaScript values is exported or can be.
    pub open spec fn has_anyref_table(self) -> bool {
        self.is_exposed(Helper::AnyrefTable.key()) || self.module.has_table(TableKind::Anyref)
    }

    /// Whether the function that puts values into the table is exposed or can be.
    pub open spec fn can_add_values(self) -> bool {
        self.is_exposed(Helper::AddToAnyrefTable.key()) || self.has_anyref_table()
    }

    /// Whether exposing the function that passes an array of JavaScript values comes upon no
    /// missing table.
    pub open spec fn can_pass_values(self) -> bool {
        ||| !self.config.anyref
        ||| self.is_exposed(Helper::PassArrayJsValue.key())
        ||| self.require_internal_export("__wbindgen_malloc"@).result is Err
        ||| self.can_add_values()
    }

    /// Whether exposing the function that reads an array of JavaScript values comes upon no
    /// missing table.
    pub open spec fn can_read_values(self) -> bool {
        ||| !self.config.anyref
        ||| self.is_exposed(Helper::GetArrayJsValue.key())
        ||| self.has_anyref_table()
    }

    /// Whether exposing the function that hands an exception to the module comes upon no missing
    /// table.
    pub open spec fn can_handle_errors(self) -> bool {
        ||| !self.config.anyref
        ||| self.is_exposed(Helper::HandleError.key())
        ||| self.can_add_values()
    }
}

/// Exposing helpers leaves the tables of the module as they are, and exposed helpers exposed.
pub proof fn lemma_tables_stay(before: GlueView, after: GlueView)
    requires
        before.frames(after),
    ensures
        before.has_anyref_table() ==> after.has_anyref_table(),
        before.can_add_values() ==> after.can_add_values(),
        forall|kind: TableKind| #[trigger]
            after.module.has_table(kind) == before.module.has_table(kind),
{
    assert(forall|kind: TableKind, i: usize| #[trigger]
        after.module.is_table(kind, i) == before.module.is_table(kind, i));
    assert forall|kind: TableKind| #[trigger]
        after.module.has_table(kind) == before.module.has_table(kind) by {
        if before.module.has_table(kind) {
            let i = choose|i: usize| before.module.is_table(kind, i);
            assert(after.module.is_table(kind, i));
        }
    }
}

/// Exposing a helper that is not exposed is performing its steps.
pub proof fn lemma_expose(state: GlueView, helper: Helper)
    ensures
        state.expose(helper) == (if state.is_exposed(helper.key()) {
            done(state, ())
        } else {
            state.mark(helper.key()).perform(helper.layer(), state.steps(helper))
        }),
{
    reveal_with_fuel(GlueView::expose, 2);
    reveal_with_fuel(GlueView::perform, 2);
}

/// A list of steps is performed step by step.
pub proof fn lemma_perform(state: GlueView, layer: nat, steps: Seq<Step>)
    ensures
        steps.len() == 0 ==> state.perform(layer, steps) == done(state, ()),
        steps.len() > 0 ==> state.perform(layer, steps) == state.perform(
            layer,
            steps.drop_last(),
        ).and(layer, steps.last()),
{
    reveal_with_fuel(GlueView::perform, 2);
}

/// One step is performed.
pub proof fn lemma_steps_1(state: GlueView, layer: nat, steps: Seq<Step>)
    requires
        steps.len() == 1,
    ensures
        state.perform(layer, steps) == done(state, ()).and(layer, steps[0]),
{
    lemma_perform(state, layer, steps);
    lemma_perform(state, layer, steps.drop_last());
}

/// Two steps are performed.
pub proof fn lemma_steps_2(state: GlueView, layer: nat, steps: Seq<Step>)
    requires
        steps.len() == 2,
    ensures
        state.perform(layer, steps) == done(state, ()).and(layer, steps[0]).and(layer, steps[1]),
{
    lemma_perform(state, layer, steps);
    lemma_steps_1(state, layer, steps.drop_last());
}

/// Three steps are performed.
pub proof fn lemma_steps_3(state: GlueView, layer: nat, steps: Seq<Step>)
    requires
        steps.len() == 3,
    ensures
        state.perform(layer, steps) == done(state, ()).and(layer, steps[0]).and(layer, steps[1])
            .and(layer, steps[2]),
{
    lemma_perform(state, layer, steps);
    lemma_steps_2(state, layer, steps.drop_last());
}

/// Four steps are performed.
pub proof fn lemma_steps_4(state: GlueView, layer: nat, steps: Seq<Step>)
    requires
        steps.len() == 4,
    ensures
        state.perform(layer, steps) == done(state, ()).and(layer, steps[0]).and(layer, steps[1])
            .and(layer, steps[2]).and(layer, steps[3]),
{
    lemma_perform(state, layer, steps);
    lemma_steps_3(state, layer, steps.drop_last());
}

/// Five steps are performed.
pub proof fn lemma_steps_5(state: GlueView, layer: nat, steps: Seq<Step>)
    requires
        steps.len() == 5,
    ensures
        state.perform(layer, steps) == done(state, ()).and(layer, steps[0]).and(layer, steps[1])
            .and(layer, steps[2]).and(layer, steps[3]).and(layer, steps[4]),
{
    lemma_perform(state, layer, steps);
    lemma_steps_4(state, layer, steps.drop_last());
}

/// Six steps are performed.
pub proof fn lemma_steps_6(state: GlueView, layer: nat, steps: Seq<Step>)
    requires
        steps.len() == 6,
    ensures
        state.perform(layer, steps) == done(state, ()).and(layer, steps[0]).and(layer, steps[1])
            .and(layer, steps[2]).and(layer, steps[3]).and(layer, steps[4])
            .and(layer, steps[5]),
{
    lemma_perform(state, layer, steps);
    lemma_steps_5(state, layer, steps.drop_last());
}

} // verus!
