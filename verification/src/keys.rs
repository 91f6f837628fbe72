//! The names under which helpers are noted differ.
use crate::helpers::{
    clamped_uint8_memory, f32_memory, f64_memory, get_array_f32, get_array_f64, get_array_i16,
    get_array_i32, get_array_i64, get_array_i8, get_array_u16, get_array_u32, get_array_u64,
    get_array_u8, get_clamped_array_u8, int16_memory, int32_memory, int64_memory, int8_memory,
    node_buffer_memory, pass_array16, pass_array32, pass_array64, pass_array8, pass_array_f32,
    pass_array_f64, uint16_memory, uint32_memory, uint64_memory, uint8_memory, Helper,
};
use vstd::prelude::*;

verus! {

impl Helper {
    /// Whether this is one of the helpers that the generator exposes by itself.
    pub open spec fn known(self) -> bool {
        match self {
            Helper::PassArray { name, delegate, size } => self.known_pass(),
            Helper::GetArray { name, memory, size } => self.known_get(),
            Helper::MemoryView { name, js } => self.known_view(),
            _ => true,
        }
    }

    /// Whether this is one of the functions that pass a typed array.
    pub open spec fn known_pass(self) -> bool {
        ||| self == pass_array8()
        ||| self == pass_array16()
        ||| self == pass_array32()
        ||| self == pass_array64()
        ||| self == pass_array_f32()
        ||| self == pass_array_f64()
    }

    /// Whether this is one of the functions that read a typed array.
    pub open spec fn known_get(self) -> bool {
        ||| self == get_array_i8()
        ||| self == get_array_u8()
        ||| self == get_clamped_array_u8()
        ||| self == get_array_i16()
        ||| self == get_array_u16()
        ||| self == get_array_i32()
        ||| self == get_array_u32()
        ||| self == get_array_i64()
        ||| self == get_array_u64()
        ||| self == get_array_f32()
        ||| self == get_array_f64()
    }

    /// Whether this is one of the functions that give a view of the memory.
    pub open spec fn known_view(self) -> bool {
        ||| self == node_buffer_memory()
        ||| self == int8_memory()
        ||| self == uint8_memory()
        ||| self == clamped_uint8_memory()
        ||| self == int16_memory()
        ||| self == uint16_memory()
        ||| self == int32_memory()
        ||| self == uint32_memory()
        ||| self == int64_memory()
        ||| self == uint64_memory()
        ||| self == f32_memory()
        ||| self == f64_memory()
    }
}

/// The length of a name and three of its characters, which tell the known helpers apart.
pub type Shape = (nat, char, char, char);

/// A character of a name; a space behind its end.
pub open spec fn char_at(name: Seq<char>, i: int) -> char {
    if i < name.len() {
        name[i]
    } else {
        ' '
    }
}

/// The shape of a name.
pub open spec fn shape(name: Seq<char>) -> Shape {
    (name.len(), char_at(name, 6), char_at(name, 8), char_at(name, 10))
}

/// The known helper whose name has that shape.
spec fn helper_of(shape: Shape) -> Helper {
    if shape == (14nat, 'o', '_', 'x') {
        Helper::DoesNotExist
    }     else if shape == (8nat, 'e', ' ', ' ') {
        Helper::DropRef
    }     else if shape == (4nat, ' ', ' ', ' ') {
        Helper::Heap
    }     else if shape == (9nat, 'e', 't', ' ') {
        Helper::HeapNext
    }     else if shape == (10nat, 'j', 'c', ' ') {
        Helper::GetObject
    }     else if shape == (10nat, '_', 'u', ' ') {
        Helper::AssertNum
    }     else if shape == (11nat, '_', 'o', 'l') {
        Helper::AssertBool
    }     else if shape == (15nat, 'e', 't', 'r') {
        Helper::WasmVectorLen
    }     else if shape == (19nat, 't', 'i', 'g') {
        Helper::PassString
    }     else if shape == (18nat, 'r', 'a', '_') {
        Helper::PassArrayJsValue
    }     else if shape == (12nat, 'n', 'o', 'e') {
        Helper::TextEncoder
    }     else if shape == (12nat, 'e', 'o', 'e') {
        Helper::TextDecoder
    }     else if shape == (20nat, 'r', 'n', '_') {
        Helper::GetString
    }     else if shape == (28nat, 'r', 'y', 'j') {
        Helper::GetArrayJsValue
    }     else if shape == (12nat, '_', 'l', 's') {
        Helper::AssertClass
    }     else if shape == (13nat, 'p', 'i', 't') {
        Helper::StackPointer
    }     else if shape == (16nat, 'e', '_', 'b') {
        Helper::BorrowedObjects
    }     else if shape == (11nat, 'b', 'e', 't') {
        Helper::TakeObject
    }     else if shape == (15nat, 'a', '_', 'b') {
        Helper::AddHeapObject
    }     else if shape == (12nat, '_', 'r', 'o') {
        Helper::HandleError
    }     else if shape == (19nat, '_', 'r', 'u') {
        Helper::GlobalArgumentPtr
    }     else if shape == (24nat, 'h', 'r', 't') {
        Helper::InheritedDescriptor
    }     else if shape == (10nat, 'S', 'i', ' ') {
        Helper::U32Shim
    }     else if shape == (12nat, 'v', 'S', 'i') {
        Helper::Int64Shim
    }     else if shape == (13nat, 'C', 't', 'h') {
        Helper::Uint64Shim
    }     else if shape == (12nat, 'e', 'n', 'n') {
        Helper::IsLikeNone
    }     else if shape == (12nat, '_', 'a', 'l') {
        Helper::AnyrefTable
    }     else if shape == (19nat, '_', 'n', 'r') {
        Helper::AddToAnyrefTable
    }     else if shape == (12nat, 's', 'r', 'n') {
        Helper::DebugString
    }     else if shape == (18nat, 'n', 't', 'o') {
        Helper::FunctionTable
    }     else if shape == (19nat, 'e', 'u', 'f') {
        node_buffer_memory()
    }     else if shape == (13nat, '8', 'e', 'o') {
        int8_memory()
    }     else if shape == (14nat, 't', 'M', 'm') {
        uint8_memory()
    }     else if shape == (21nat, 't', 'C', 'a') {
        clamped_uint8_memory()
    }     else if shape == (14nat, '1', 'M', 'm') {
        int16_memory()
    }     else if shape == (15nat, 't', '6', 'e') {
        uint16_memory()
    }     else if shape == (14nat, '3', 'M', 'm') {
        int32_memory()
    }     else if shape == (15nat, 't', '2', 'e') {
        uint32_memory()
    }     else if shape == (14nat, '6', 'M', 'm') {
        int64_memory()
    }     else if shape == (15nat, 't', '4', 'e') {
        uint64_memory()
    }     else if shape == (16nat, 'a', '3', 'M') {
        f32_memory()
    }     else if shape == (16nat, 'a', '6', 'M') {
        f64_memory()
    }     else if shape == (16nat, 'r', 'y', 'T') {
        pass_array8()
    }     else if shape == (17nat, 'r', 'y', '6') {
        pass_array16()
    }     else if shape == (17nat, 'r', 'y', '2') {
        pass_array32()
    }     else if shape == (17nat, 'r', 'y', '4') {
        pass_array64()
    }     else if shape == (18nat, 'r', 'y', '3') {
        pass_array_f32()
    }     else if shape == (18nat, 'r', 'y', '6') {
        pass_array_f64()
    }     else if shape == (18nat, 'a', 'I', 'F') {
        get_array_i8()
    }     else if shape == (18nat, 'a', 'U', 'F') {
        get_array_u8()
    }     else if shape == (25nat, 'm', 'e', 'A') {
        get_clamped_array_u8()
    }     else if shape == (19nat, 'a', 'I', '6') {
        get_array_i16()
    }     else if shape == (19nat, 'a', 'U', '6') {
        get_array_u16()
    }     else if shape == (19nat, 'a', 'I', '2') {
        get_array_i32()
    }     else if shape == (19nat, 'a', 'U', '2') {
        get_array_u32()
    }     else if shape == (19nat, 'a', 'I', '4') {
        get_array_i64()
    }     else if shape == (19nat, 'a', 'U', '4') {
        get_array_u64()
    }     else if shape == (19nat, 'a', 'F', '2') {
        get_array_f32()
    }     else if shape == (19nat, 'a', 'F', '4') {
        get_array_f64()
    } else {
        Helper::Heap
    }
}

/// The shape of its name tells which known helper it is.
proof fn lemma_shape(helper: Helper)
    requires
        helper.known(),
    ensures
        helper_of(shape(helper.key())) == helper,
{
    match helper {
        Helper::PassArray { name, delegate, size } => lemma_shape_pass(helper),
        Helper::GetArray { name, memory, size } => lemma_shape_get(helper),
        Helper::MemoryView { name, js } => lemma_shape_view(helper),
        _ => lemma_shape_fixed(helper),
    }
}

/// The shapes of the names of helpers without parameters.
proof fn lemma_shape_fixed(helper: Helper)
    requires
        !(helper is PassArray),
        !(helper is GetArray),
        !(helper is MemoryView),
    ensures
        helper_of(shape(helper.key())) == helper,
{
    match helper {
        Helper::DoesNotExist => {
            reveal_strlit("does_not_exist");
            assert(shape("does_not_exist"@) == (14nat, 'o', '_', 'x'));
        },
        Helper::DropRef => {
            reveal_strlit("drop_ref");
            assert(shape("drop_ref"@) == (8nat, 'e', ' ', ' '));
        },
        Helper::Heap => {
            reveal_strlit("heap");
            assert(shape("heap"@) == (4nat, ' ', ' ', ' '));
        },
        Helper::HeapNext => {
            reveal_strlit("heap_next");
            assert(shape("heap_next"@) == (9nat, 'e', 't', ' '));
        },
        Helper::GetObject => {
            reveal_strlit("get_object");
            assert(shape("get_object"@) == (10nat, 'j', 'c', ' '));
        },
        Helper::AssertNum => {
            reveal_strlit("assert_num");
            assert(shape("assert_num"@) == (10nat, '_', 'u', ' '));
        },
        Helper::AssertBool => {
            reveal_strlit("assert_bool");
            assert(shape("assert_bool"@) == (11nat, '_', 'o', 'l'));
        },
        Helper::WasmVectorLen => {
            reveal_strlit("wasm_vector_len");
            assert(shape("wasm_vector_len"@) == (15nat, 'e', 't', 'r'));
        },
        Helper::PassString => {
            reveal_strlit("pass_string_to_wasm");
            assert(shape("pass_string_to_wasm"@) == (19nat, 't', 'i', 'g'));
        },
        Helper::PassArrayJsValue => {
            reveal_strlit("pass_array_jsvalue");
            assert(shape("pass_array_jsvalue"@) == (18nat, 'r', 'a', '_'));
        },
        Helper::TextEncoder => {
            reveal_strlit("text_encoder");
            assert(shape("text_encoder"@) == (12nat, 'n', 'o', 'e'));
        },
        Helper::TextDecoder => {
            reveal_strlit("text_decoder");
            assert(shape("text_decoder"@) == (12nat, 'e', 'o', 'e'));
        },
        Helper::GetString => {
            reveal_strlit("get_string_from_wasm");
            assert(shape("get_string_from_wasm"@) == (20nat, 'r', 'n', '_'));
        },
        Helper::GetArrayJsValue => {
            reveal_strlit("get_array_js_value_from_wasm");
            assert(shape("get_array_js_value_from_wasm"@) == (28nat, 'r', 'y', 'j'));
        },
        Helper::AssertClass => {
            reveal_strlit("assert_class");
            assert(shape("assert_class"@) == (12nat, '_', 'l', 's'));
        },
        Helper::StackPointer => {
            reveal_strlit("stack_pointer");
            assert(shape("stack_pointer"@) == (13nat, 'p', 'i', 't'));
        },
        Helper::BorrowedObjects => {
            reveal_strlit("borrowed_objects");
            assert(shape("borrowed_objects"@) == (16nat, 'e', '_', 'b'));
        },
        Helper::TakeObject => {
            reveal_strlit("take_object");
            assert(shape("take_object"@) == (11nat, 'b', 'e', 't'));
        },
        Helper::AddHeapObject => {
            reveal_strlit("add_heap_object");
            assert(shape("add_heap_object"@) == (15nat, 'a', '_', 'b'));
        },
        Helper::HandleError => {
            reveal_strlit("handle_error");
            assert(shape("handle_error"@) == (12nat, '_', 'r', 'o'));
        },
        Helper::GlobalArgumentPtr => {
            reveal_strlit("global_argument_ptr");
            assert(shape("global_argument_ptr"@) == (19nat, '_', 'r', 'u'));
        },
        Helper::InheritedDescriptor => {
            reveal_strlit("get_inherited_descriptor");
            assert(shape("get_inherited_descriptor"@) == (24nat, 'h', 'r', 't'));
        },
        Helper::U32Shim => {
            reveal_strlit("u32CvtShim");
            assert(shape("u32CvtShim"@) == (10nat, 'S', 'i', ' '));
        },
        Helper::Int64Shim => {
            reveal_strlit("int64CvtShim");
            assert(shape("int64CvtShim"@) == (12nat, 'v', 'S', 'i'));
        },
        Helper::Uint64Shim => {
            reveal_strlit("uint64CvtShim");
            assert(shape("uint64CvtShim"@) == (13nat, 'C', 't', 'h'));
        },
        Helper::IsLikeNone => {
            reveal_strlit("is_like_none");
            assert(shape("is_like_none"@) == (12nat, 'e', 'n', 'n'));
        },
        Helper::AnyrefTable => {
            reveal_strlit("anyref_table");
            assert(shape("anyref_table"@) == (12nat, '_', 'a', 'l'));
        },
        Helper::AddToAnyrefTable => {
            reveal_strlit("add_to_anyref_table");
            assert(shape("add_to_anyref_table"@) == (19nat, '_', 'n', 'r'));
        },
        Helper::DebugString => {
            reveal_strlit("debug_string");
            assert(shape("debug_string"@) == (12nat, 's', 'r', 'n'));
        },
        Helper::FunctionTable => {
            reveal_strlit("wbg-function-table");
            assert(shape("wbg-function-table"@) == (18nat, 'n', 't', 'o'));
        },
        _ => {},
    }
}

/// The shapes of the names of functions that pass a typed array.
proof fn lemma_shape_pass(helper: Helper)
    requires
        helper.known_pass(),
    ensures
        helper_of(shape(helper.key())) == helper,
{
    if helper == pass_array8() {
        reveal_strlit("passArray8ToWasm");
        assert(shape("passArray8ToWasm"@) == (16nat, 'r', 'y', 'T'));
    }     else if helper == pass_array16() {
        reveal_strlit("passArray16ToWasm");
        assert(shape("passArray16ToWasm"@) == (17nat, 'r', 'y', '6'));
    }     else if helper == pass_array32() {
        reveal_strlit("passArray32ToWasm");
        assert(shape("passArray32ToWasm"@) == (17nat, 'r', 'y', '2'));
    }     else if helper == pass_array64() {
        reveal_strlit("passArray64ToWasm");
        assert(shape("passArray64ToWasm"@) == (17nat, 'r', 'y', '4'));
    }     else if helper == pass_array_f32() {
        reveal_strlit("passArrayF32ToWasm");
        assert(shape("passArrayF32ToWasm"@) == (18nat, 'r', 'y', '3'));
    }     else if helper == pass_array_f64() {
        reveal_strlit("passArrayF64ToWasm");
        assert(shape("passArrayF64ToWasm"@) == (18nat, 'r', 'y', '6'));
    }
}

/// The shapes of the names of functions that read a typed array.
proof fn lemma_shape_get(helper: Helper)
    requires
        helper.known_get(),
    ensures
        helper_of(shape(helper.key())) == helper,
{
    if helper == get_array_i8() {
        reveal_strlit("getArrayI8FromWasm");
        assert(shape("getArrayI8FromWasm"@) == (18nat, 'a', 'I', 'F'));
    }     else if helper == get_array_u8() {
        reveal_strlit("getArrayU8FromWasm");
        assert(shape("getArrayU8FromWasm"@) == (18nat, 'a', 'U', 'F'));
    }     else if helper == get_clamped_array_u8() {
        reveal_strlit("getClampedArrayU8FromWasm");
        assert(shape("getClampedArrayU8FromWasm"@) == (25nat, 'm', 'e', 'A'));
    }     else if helper == get_array_i16() {
        reveal_strlit("getArrayI16FromWasm");
        assert(shape("getArrayI16FromWasm"@) == (19nat, 'a', 'I', '6'));
    }     else if helper == get_array_u16() {
        reveal_strlit("getArrayU16FromWasm");
        assert(shape("getArrayU16FromWasm"@) == (19nat, 'a', 'U', '6'));
    }     else if helper == get_array_i32() {
        reveal_strlit("getArrayI32FromWasm");
        assert(shape("getArrayI32FromWasm"@) == (19nat, 'a', 'I', '2'));
    }     else if helper == get_array_u32() {
        reveal_strlit("getArrayU32FromWasm");
        assert(shape("getArrayU32FromWasm"@) == (19nat, 'a', 'U', '2'));
    }     else if helper == get_array_i64() {
        reveal_strlit("getArrayI64FromWasm");
        assert(shape("getArrayI64FromWasm"@) == (19nat, 'a', 'I', '4'));
    }     else if helper == get_array_u64() {
        reveal_strlit("getArrayU64FromWasm");
        assert(shape("getArrayU64FromWasm"@) == (19nat, 'a', 'U', '4'));
    }     else if helper == get_array_f32() {
        reveal_strlit("getArrayF32FromWasm");
        assert(shape("getArrayF32FromWasm"@) == (19nat, 'a', 'F', '2'));
    }     else if helper == get_array_f64() {
        reveal_strlit("getArrayF64FromWasm");
        assert(shape("getArrayF64FromWasm"@) == (19nat, 'a', 'F', '4'));
    }
}

/// The shapes of the names of functions that give a view of the memory.
proof fn lemma_shape_view(helper: Helper)
    requires
        helper.known_view(),
    ensures
        helper_of(shape(helper.key())) == helper,
{
    if helper == node_buffer_memory() {
        reveal_strlit("getNodeBufferMemory");
        assert(shape("getNodeBufferMemory"@) == (19nat, 'e', 'u', 'f'));
    }     else if helper == int8_memory() {
        reveal_strlit("getInt8Memory");
        assert(shape("getInt8Memory"@) == (13nat, '8', 'e', 'o'));
    }     else if helper == uint8_memory() {
        reveal_strlit("getUint8Memory");
        assert(shape("getUint8Memory"@) == (14nat, 't', 'M', 'm'));
    }     else if helper == clamped_uint8_memory() {
        reveal_strlit("getUint8ClampedMemory");
        assert(shape("getUint8ClampedMemory"@) == (21nat, 't', 'C', 'a'));
    }     else if helper == int16_memory() {
        reveal_strlit("getInt16Memory");
        assert(shape("getInt16Memory"@) == (14nat, '1', 'M', 'm'));
    }     else if helper == uint16_memory() {
        reveal_strlit("getUint16Memory");
        assert(shape("getUint16Memory"@) == (15nat, 't', '6', 'e'));
    }     else if helper == int32_memory() {
        reveal_strlit("getInt32Memory");
        assert(shape("getInt32Memory"@) == (14nat, '3', 'M', 'm'));
    }     else if helper == uint32_memory() {
        reveal_strlit("getUint32Memory");
        assert(shape("getUint32Memory"@) == (15nat, 't', '2', 'e'));
    }     else if helper == int64_memory() {
        reveal_strlit("getInt64Memory");
        assert(shape("getInt64Memory"@) == (14nat, '6', 'M', 'm'));
    }     else if helper == uint64_memory() {
        reveal_strlit("getUint64Memory");
        assert(shape("getUint64Memory"@) == (15nat, 't', '4', 'e'));
    }     else if helper == f32_memory() {
        reveal_strlit("getFloat32Memory");
        assert(shape("getFloat32Memory"@) == (16nat, 'a', '3', 'M'));
    }     else if helper == f64_memory() {
        reveal_strlit("getFloat64Memory");
        assert(shape("getFloat64Memory"@) == (16nat, 'a', '6', 'M'));
    }
}

/// No two helpers are noted under the same name, so exposing one never keeps another from being
/// exposed.
pub proof fn law_keys_differ(a: Helper, b: Helper)
    requires
        a.known(),
        b.known(),
        a != b,
    ensures
        a.key() != b.key(),
{
    lemma_shape(a);
    lemma_shape(b);
}

} // verus!
