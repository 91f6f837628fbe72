//! Exposing helpers.
//!
//! Each function here makes a helper part of the glue, together with what that helper needs. It
//! does nothing where the helper is part of the glue already.
use crate::bindings::{texts, JsImport, JsImportName};
use crate::config::{EncodeInto, VectorKind};
use crate::context::{done, unit_view, Context, GlueView, Outcome};
use crate::error::GlueError;
use crate::helpers::{
    clamped_uint8_memory, f32_memory, f64_memory, get_name, get_steps, int16_memory, int32_memory,
    int64_memory, int8_memory, kind_memory, lemma_expose, lemma_steps_1, lemma_steps_2,
    lemma_steps_3, lemma_steps_4, lemma_steps_5, lemma_steps_6, lemma_tables_stay, no_name,
    node_buffer_memory, pass_name, pass_steps, top_layer, uint16_memory, uint32_memory,
    uint64_memory, uint8_memory, Helper,
};
use crate::module::{ascending_ids, main_function_table, tables, ModuleView, TableKind};
use crate::snippets::{
    ADD_HEAP_OBJECT_0, ADD_HEAP_OBJECT_1, ADD_TO_ANYREF_TABLE, ARRAYGET_0, ARRAYGET_1, ARRAYGET_2,
    ARRAYGET_3, ARRAYGET_4, ASSERT_BOOL, ASSERT_CLASS, ASSERT_NUM, BORROWED_OBJECTS, DEBUG_STRING,
    DOES_NOT_EXIST, DROP_REF_0, DROP_REF_1, ENCODE_INTO_CHECK, GET_ARRAY_JSVALUE_ANYREF,
    GET_ARRAY_JSVALUE_HEAP, GET_INHERITED_DESCRIPTOR, GET_OBJECT, GET_STRING_0, GET_STRING_1,
    GLOBAL_ARGUMENT_PTR, HANDLE_ERROR_ANYREF, HANDLE_ERROR_HEAP, HEAP_0, HEAP_1, HEAP_CHECK,
    HEAP_FILL, HEAP_NEXT, HEAP_PUSH_0, HEAP_PUSH_1, INITIAL_HEAP_OFFSET, INITIAL_HEAP_VALUES,
    INITIAL_HEAP_VALUES_LEN, INT64_CVT_SHIM_0, INT64_CVT_SHIM_1, INT64_CVT_SHIM_2, IS_LIKE_NONE,
    MEMVIEW_0, MEMVIEW_1, MEMVIEW_2, MEMVIEW_3, MEMVIEW_4, MEMVIEW_5, MEMVIEW_6, MEMVIEW_7,
    MEMVIEW_8, MEMVIEW_9, PASS_ARRAY_0, PASS_ARRAY_1, PASS_ARRAY_2, PASS_ARRAY_3, PASS_ARRAY_4,
    PASS_ARRAY_JSVALUE_ANYREF, PASS_ARRAY_JSVALUE_HEAP, PASS_STRING_0, PASS_STRING_1,
    PASS_STRING_CHECK, PASS_STRING_NODE_0, PASS_STRING_NODE_1, PASS_STRING_TEST_0,
    PASS_STRING_TEST_1, PASS_STRING_TEST_2, PROCESSOR_BROWSER_0, PROCESSOR_BROWSER_1,
    PROCESSOR_BROWSER_2, PROCESSOR_FOUND_0, PROCESSOR_FOUND_1, PROCESSOR_FOUND_2,
    PROCESSOR_LOOKUP_0, PROCESSOR_LOOKUP_1, PROCESSOR_LOOKUP_2, PROCESSOR_LOOKUP_3,
    PROCESSOR_LOOKUP_4, PROCESSOR_NODE_0, PROCESSOR_NODE_1, PROCESSOR_NODE_2, STACK_POINTER_0,
    STACK_POINTER_1, START_ENCODING_0, START_ENCODING_1, TAKE_OBJECT, U32_CVT_SHIM_0,
    U32_CVT_SHIM_1, UINT64_CVT_SHIM_0, UINT64_CVT_SHIM_1, UINT64_CVT_SHIM_2, USE_ENCODE_0,
    USE_ENCODE_1, USE_ENCODE_INTO_0, USE_ENCODE_INTO_1, USE_ENCODE_INTO_2, WASM_VECTOR_LEN,
};
use crate::text::to_decimal;
use vstd::prelude::*;

verus! {

/// An expression that reads the value at a place and gives the place up. A table of the module does
/// that by itself.
pub open spec fn object_taken(anyref: bool, place: Seq<char>) -> Seq<char> {
    if anyref {
        place
    } else {
        "takeObject("@ + place + ")"@
    }
}

/// An expression that reads the value at a place.
pub open spec fn object_read(anyref: bool, place: Seq<char>) -> Seq<char> {
    if anyref {
        place
    } else {
        "getObject("@ + place + ")"@
    }
}

impl<'a> Context<'a> {
    /// Exposes a function that stands for an import that is not there.
    pub fn expose_does_not_exist(&mut self)
        requires
            old(self).wf(),
            old(self)@.open(),
        ensures
            final(self).wf(),
            old(self)@.frames(final(self)@),
            old(self)@.expose(Helper::DoesNotExist) == done(final(self)@, ()),
    {
        proof {
            let helper = Helper::DoesNotExist;
            lemma_expose(self@, helper);
            lemma_steps_1(self@.mark(helper.key()), helper.layer(), self@.steps(helper));
        }
        if !self.should_write_global("does_not_exist") {
            return ;
        }
        self.global(DOES_NOT_EXIST);
    }

    /// Exposes the function that frees a slot of the heap.
    /// 
    /// The values behind the stack are there for good: they can be passed by value like all others,
    /// but their slots are not freed.
    pub fn expose_drop_ref(&mut self)
        requires
            old(self).wf(),
            old(self)@.open(),
            !old(self)@.config.anyref,
        ensures
            final(self).wf(),
            old(self)@.frames(final(self)@),
            old(self)@.expose(Helper::DropRef) == done(final(self)@, ()),
    {
        proof {
            let helper = Helper::DropRef;
            lemma_expose(self@, helper);
            lemma_steps_3(self@.mark(helper.key()), helper.layer(), self@.steps(helper));
        }
        if !self.should_write_global("drop_ref") {
            return ;
        }
        self.expose_global_heap();
        self.expose_global_heap_next();
        let mut item = DROP_REF_0.to_string();
        item.append(to_decimal((INITIAL_HEAP_OFFSET + INITIAL_HEAP_VALUES_LEN) as u64).as_str());
        item.append(DROP_REF_1);
        self.global(item.as_str());
    }

    /// Exposes the heap.
    pub fn expose_global_heap(&mut self)
        requires
            old(self).wf(),
            old(self)@.open(),
            !old(self)@.config.anyref,
        ensures
            final(self).wf(),
            old(self)@.frames(final(self)@),
            old(self)@.expose(Helper::Heap) == done(final(self)@, ()),
    {
        proof {
            let helper = Helper::Heap;
            lemma_expose(self@, helper);
            lemma_steps_3(self@.mark(helper.key()), helper.layer(), self@.steps(helper));
        }
        if !self.should_write_global("heap") {
            return ;
        }
        let mut array = HEAP_0.to_string();
        array.append(to_decimal(INITIAL_HEAP_OFFSET as u64).as_str());
        array.append(HEAP_1);
        self.global(array.as_str());
        self.global(HEAP_FILL);
        let mut values = HEAP_PUSH_0.to_string();
        values.append(INITIAL_HEAP_VALUES);
        values.append(HEAP_PUSH_1);
        self.global(values.as_str());
    }

    /// Exposes the first free slot of the heap.
    pub fn expose_global_heap_next(&mut self)
        requires
            old(self).wf(),
            old(self)@.open(),
            !old(self)@.config.anyref,
        ensures
            final(self).wf(),
            old(self)@.frames(final(self)@),
            old(self)@.expose(Helper::HeapNext) == done(final(self)@, ()),
    {
        proof {
            let helper = Helper::HeapNext;
            lemma_expose(self@, helper);
            lemma_steps_2(self@.mark(helper.key()), helper.layer(), self@.steps(helper));
        }
        if !self.should_write_global("heap_next") {
            return ;
        }
        self.expose_global_heap();
        self.global(HEAP_NEXT);
    }

    /// Exposes the function that reads a slot of the heap.
    pub fn expose_get_object(&mut self)
        requires
            old(self).wf(),
            old(self)@.open(),
            !old(self)@.config.anyref,
        ensures
            final(self).wf(),
            old(self)@.frames(final(self)@),
            old(self)@.expose(Helper::GetObject) == done(final(self)@, ()),
    {
        proof {
            let helper = Helper::GetObject;
            lemma_expose(self@, helper);
            lemma_steps_2(self@.mark(helper.key()), helper.layer(), self@.steps(helper));
        }
        if !self.should_write_global("get_object") {
            return ;
        }
        self.expose_global_heap();
        self.global(GET_OBJECT);
    }

    /// Exposes the check that a value is a number.
    pub fn expose_assert_num(&mut self)
        requires
            old(self).wf(),
            old(self)@.open(),
        ensures
            final(self).wf(),
            old(self)@.frames(final(self)@),
            old(self)@.expose(Helper::AssertNum) == done(final(self)@, ()),
    {
        proof {
            let helper = Helper::AssertNum;
            lemma_expose(self@, helper);
            lemma_steps_1(self@.mark(helper.key()), helper.layer(), self@.steps(helper));
        }
        if !self.should_write_global("assert_num") {
            return ;
        }
        self.global(ASSERT_NUM);
    }

    /// Exposes the check that a value is a boolean.
    pub fn expose_assert_bool(&mut self)
        requires
            old(self).wf(),
            old(self)@.open(),
        ensures
            final(self).wf(),
            old(self)@.frames(final(self)@),
            old(self)@.expose(Helper::AssertBool) == done(final(self)@, ()),
    {
        proof {
            let helper = Helper::AssertBool;
            lemma_expose(self@, helper);
            lemma_steps_1(self@.mark(helper.key()), helper.layer(), self@.steps(helper));
        }
        if !self.should_write_global("assert_bool") {
            return ;
        }
        self.global(ASSERT_BOOL);
    }

    /// Exposes the length of the slice that was passed last.
    pub fn expose_wasm_vector_len(&mut self)
        requires
            old(self).wf(),
            old(self)@.open(),
        ensures
            final(self).wf(),
            old(self)@.frames(final(self)@),
            old(self)@.expose(Helper::WasmVectorLen) == done(final(self)@, ()),
    {
        proof {
            let helper = Helper::WasmVectorLen;
            lemma_expose(self@, helper);
            lemma_steps_1(self@.mark(helper.key()), helper.layer(), self@.steps(helper));
        }
        if !self.should_write_global("wasm_vector_len") {
            return ;
        }
        self.global(WASM_VECTOR_LEN);
    }

    /// Exposes the function that passes a string.
    pub fn expose_pass_string_to_wasm(&mut self) -> (r: Result<(), GlueError>)
        requires
            old(self).wf(),
            old(self)@.open(),
        ensures
            final(self).wf(),
            old(self)@.frames(final(self)@),
            old(self)@.expose(Helper::PassString) == (Outcome {
                state: final(self)@,
                result: unit_view(r),
            }),
    {
        proof {
            let helper = Helper::PassString;
            let marked = self@.mark(helper.key());
            let steps = self@.steps(helper);
            lemma_expose(self@, helper);
            if steps.len() == 4 {
                lemma_steps_4(marked, helper.layer(), steps);
            } else {
                lemma_steps_6(marked, helper.layer(), steps);
            }
        }
        if !self.should_write_global("pass_string_to_wasm") {
            return Ok(());
        }
        match self.require_internal_export("__wbindgen_malloc") {
            Ok(()) => {},
            Err(error) => return Err(error),
        }
        self.expose_wasm_vector_len();
        let debug = if self.options().debug {
            PASS_STRING_CHECK
        } else {
            ""
        };
        // Node.js has `Buffer.write`, which needs no view of a part of the memory, and
        // `Buffer.byteLength`, which tells the size at once.
        if self.options().mode.nodejs() {
            self.expose_node_buffer_memory();
            let mut item = PASS_STRING_NODE_0.to_string();
            item.append(debug);
            item.append(PASS_STRING_NODE_1);
            self.global(item.as_str());
            return Ok(());
        }
        match self.expose_text_encoder() {
            Ok(()) => {},
            Err(error) => return Err(error),
        }
        self.expose_uint8_memory();
        // ASCII characters are written one by one: for the strings that hold nothing else this
        // is faster than a call of `TextEncoder`.
        let mut start = START_ENCODING_0.to_string();
        start.append(debug);
        start.append(START_ENCODING_1);
        let mut use_encode = USE_ENCODE_0.to_string();
        use_encode.append(start.as_str());
        use_encode.append(USE_ENCODE_1);
        let mut use_encode_into = USE_ENCODE_INTO_0.to_string();
        use_encode_into.append(start.as_str());
        use_encode_into.append(USE_ENCODE_INTO_1);
        if self.options().debug {
            use_encode_into.append(ENCODE_INTO_CHECK);
        } else {
            use_encode_into.append("");
        }
        use_encode_into.append(USE_ENCODE_INTO_2);
        // Each of the functions below reallocates.
        match self.require_internal_export("__wbindgen_realloc") {
            Ok(()) => {},
            Err(error) => return Err(error),
        }
        // `encodeInto` does not work on memory that threads share.
        let shared = self.memory_is_shared();
        match &self.options().encode_into {
            EncodeInto::Always if !shared => {
                let mut item = PASS_STRING_0.to_string();
                item.append(use_encode_into.as_str());
                item.append(PASS_STRING_1);
                self.global(item.as_str());
            },
            EncodeInto::Test if !shared => {
                let mut item = PASS_STRING_TEST_0.to_string();
                item.append(use_encode_into.as_str());
                item.append(PASS_STRING_TEST_1);
                item.append(use_encode.as_str());
                item.append(PASS_STRING_TEST_2);
                self.global(item.as_str());
            },
            _ => {
                let mut item = PASS_STRING_0.to_string();
                item.append(use_encode.as_str());
                item.append(PASS_STRING_1);
                self.global(item.as_str());
            },
        }
        Ok(())
    }

    /// Exposes the function that gives a view of the memory as a Node.js buffer.
    pub fn expose_node_buffer_memory(&mut self)
        requires
            old(self).wf(),
            old(self)@.open(),
        ensures
            final(self).wf(),
            old(self)@.frames(final(self)@),
            old(self)@.expose(node_buffer_memory()) == done(final(self)@, ()),
    {
        self.memview("getNodeBufferMemory", "Buffer.from");
    }

    /// Exposes the function that gives a view of the memory as signed bytes.
    pub fn expose_int8_memory(&mut self)
        requires
            old(self).wf(),
            old(self)@.open(),
        ensures
            final(self).wf(),
            old(self)@.frames(final(self)@),
            old(self)@.expose(int8_memory()) == done(final(self)@, ()),
    {
        self.memview("getInt8Memory", "new Int8Array");
    }

    /// Exposes the function that gives a view of the memory as bytes.
    pub fn expose_uint8_memory(&mut self)
        requires
            old(self).wf(),
            old(self)@.open(),
        ensures
            final(self).wf(),
            old(self)@.frames(final(self)@),
            old(self)@.expose(uint8_memory()) == done(final(self)@, ()),
    {
        self.memview("getUint8Memory", "new Uint8Array");
    }

    /// Exposes the function that gives a view of the memory as clamped bytes.
    pub fn expose_clamped_uint8_memory(&mut self)
        requires
            old(self).wf(),
            old(self)@.open(),
        ensures
            final(self).wf(),
            old(self)@.frames(final(self)@),
            old(self)@.expose(clamped_uint8_memory()) == done(final(self)@, ()),
    {
        self.memview("getUint8ClampedMemory", "new Uint8ClampedArray");
    }

    /// Exposes the function that gives a view of the memory as signed 16-bit integers.
    pub fn expose_int16_memory(&mut self)
        requires
            old(self).wf(),
            old(self)@.open(),
        ensures
            final(self).wf(),
            old(self)@.frames(final(self)@),
            old(self)@.expose(int16_memory()) == done(final(self)@, ()),
    {
        self.memview("getInt16Memory", "new Int16Array");
    }

    /// Exposes the function that gives a view of the memory as 16-bit integers.
    pub fn expose_uint16_memory(&mut self)
        requires
            old(self).wf(),
            old(self)@.open(),
        ensures
            final(self).wf(),
            old(self)@.frames(final(self)@),
            old(self)@.expose(uint16_memory()) == done(final(self)@, ()),
    {
        self.memview("getUint16Memory", "new Uint16Array");
    }

    /// Exposes the function that gives a view of the memory as signed 32-bit integers.
    pub fn expose_int32_memory(&mut self)
        requires
            old(self).wf(),
            old(self)@.open(),
        ensures
            final(self).wf(),
            old(self)@.frames(final(self)@),
            old(self)@.expose(int32_memory()) == done(final(self)@, ()),
    {
        self.memview("getInt32Memory", "new Int32Array");
    }

    /// Exposes the function that gives a view of the memory as 32-bit integers.
    pub fn expose_uint32_memory(&mut self)
        requires
            old(self).wf(),
            old(self)@.open(),
        ensures
            final(self).wf(),
            old(self)@.frames(final(self)@),
            old(self)@.expose(uint32_memory()) == done(final(self)@, ()),
    {
        self.memview("getUint32Memory", "new Uint32Array");
    }

    /// Exposes the function that gives a view of the memory as signed 64-bit integers.
    pub fn expose_int64_memory(&mut self)
        requires
            old(self).wf(),
            old(self)@.open(),
        ensures
            final(self).wf(),
            old(self)@.frames(final(self)@),
            old(self)@.expose(int64_memory()) == done(final(self)@, ()),
    {
        self.memview("getInt64Memory", "new BigInt64Array");
    }

    /// Exposes the function that gives a view of the memory as 64-bit integers.
    pub fn expose_uint64_memory(&mut self)
        requires
            old(self).wf(),
            old(self)@.open(),
        ensures
            final(self).wf(),
            old(self)@.frames(final(self)@),
            old(self)@.expose(uint64_memory()) == done(final(self)@, ()),
    {
        self.memview("getUint64Memory", "new BigUint64Array");
    }

    /// Exposes the function that gives a view of the memory as 32-bit floating-point numbers.
    pub fn expose_f32_memory(&mut self)
        requires
            old(self).wf(),
            old(self)@.open(),
        ensures
            final(self).wf(),
            old(self)@.frames(final(self)@),
            old(self)@.expose(f32_memory()) == done(final(self)@, ()),
    {
        self.memview("getFloat32Memory", "new Float32Array");
    }

    /// Exposes the function that gives a view of the memory as 64-bit floating-point numbers.
    pub fn expose_f64_memory(&mut self)
        requires
            old(self).wf(),
            old(self)@.open(),
        ensures
            final(self).wf(),
            old(self)@.frames(final(self)@),
            old(self)@.expose(f64_memory()) == done(final(self)@, ()),
    {
        self.memview("getFloat64Memory", "new Float64Array");
    }

    /// Exposes a function `name` that gives a view of the memory, made by `js`.
    fn memview(&mut self, name: &str, js: &str)
        requires
            old(self).wf(),
            old(self)@.open(),
        ensures
            final(self).wf(),
            old(self)@.frames(final(self)@),
            old(self)@.expose(Helper::MemoryView { name: name@, js: js@ }) == done(
                final(self)@,
                (),
            ),
    {
        proof {
            let helper = Helper::MemoryView { name: name@, js: js@ };
            lemma_expose(self@, helper);
            lemma_steps_1(self@.mark(helper.key()), helper.layer(), self@.steps(helper));
        }
        if !self.should_write_global(name) {
            return ;
        }
        let mem = self.memory();
        let mut item = MEMVIEW_0.to_string();
        item.append(name);
        item.append(MEMVIEW_1);
        item.append(name);
        item.append(MEMVIEW_2);
        item.append(name);
        item.append(MEMVIEW_3);
        item.append(name);
        item.append(MEMVIEW_4);
        item.append(mem);
        item.append(MEMVIEW_5);
        item.append(name);
        item.append(MEMVIEW_6);
        item.append(js);
        item.append(MEMVIEW_7);
        item.append(mem);
        item.append(MEMVIEW_8);
        item.append(name);
        item.append(MEMVIEW_9);
        self.global(item.as_str());
    }

    /// Exposes the function that passes an array of bytes.
    pub fn expose_pass_array8_to_wasm(&mut self) -> (r: Result<(), GlueError>)
        requires
            old(self).wf(),
            old(self)@.open(),
        ensures
            final(self).wf(),
            old(self)@.frames(final(self)@),
            old(self)@.run(pass_steps(VectorKind::U8)) == (Outcome {
                state: final(self)@,
                result: unit_view(r),
            }),
    {
        proof {
            lemma_steps_2(self@, top_layer(), pass_steps(VectorKind::U8));
        }
        self.expose_uint8_memory();
        self.pass_array_to_wasm("passArray8ToWasm", "getUint8Memory", 1)
    }

    /// Exposes the function that passes an array of 16-bit integers.
    pub fn expose_pass_array16_to_wasm(&mut self) -> (r: Result<(), GlueError>)
        requires
            old(self).wf(),
            old(self)@.open(),
        ensures
            final(self).wf(),
            old(self)@.frames(final(self)@),
            old(self)@.run(pass_steps(VectorKind::U16)) == (Outcome {
                state: final(self)@,
                result: unit_view(r),
            }),
    {
        proof {
            lemma_steps_2(self@, top_layer(), pass_steps(VectorKind::U16));
        }
        self.expose_uint16_memory();
        self.pass_array_to_wasm("passArray16ToWasm", "getUint16Memory", 2)
    }

    /// Exposes the function that passes an array of 32-bit integers.
    pub fn expose_pass_array32_to_wasm(&mut self) -> (r: Result<(), GlueError>)
        requires
            old(self).wf(),
            old(self)@.open(),
        ensures
            final(self).wf(),
            old(self)@.frames(final(self)@),
            old(self)@.run(pass_steps(VectorKind::U32)) == (Outcome {
                state: final(self)@,
                result: unit_view(r),
            }),
    {
        proof {
            lemma_steps_2(self@, top_layer(), pass_steps(VectorKind::U32));
        }
        self.expose_uint32_memory();
        self.pass_array_to_wasm("passArray32ToWasm", "getUint32Memory", 4)
    }

    /// Exposes the function that passes an array of 64-bit integers.
    pub fn expose_pass_array64_to_wasm(&mut self) -> (r: Result<(), GlueError>)
        requires
            old(self).wf(),
            old(self)@.open(),
        ensures
            final(self).wf(),
            old(self)@.frames(final(self)@),
            old(self)@.run(pass_steps(VectorKind::U64)) == (Outcome {
                state: final(self)@,
                result: unit_view(r),
            }),
    {
        proof {
            lemma_steps_2(self@, top_layer(), pass_steps(VectorKind::U64));
        }
        self.expose_uint64_memory();
        self.pass_array_to_wasm("passArray64ToWasm", "getUint64Memory", 8)
    }

    /// Exposes the function that passes an array of 32-bit floating-point numbers.
    pub fn expose_pass_array_f32_to_wasm(&mut self) -> (r: Result<(), GlueError>)
        requires
            old(self).wf(),
            old(self)@.open(),
        ensures
            final(self).wf(),
            old(self)@.frames(final(self)@),
            old(self)@.run(pass_steps(VectorKind::F32)) == (Outcome {
                state: final(self)@,
                result: unit_view(r),
            }),
    {
        proof {
            lemma_steps_2(self@, top_layer(), pass_steps(VectorKind::F32));
        }
        self.expose_f32_memory();
        self.pass_array_to_wasm("passArrayF32ToWasm", "getFloat32Memory", 4)
    }

    /// Exposes the function that passes an array of 64-bit floating-point numbers.
    pub fn expose_pass_array_f64_to_wasm(&mut self) -> (r: Result<(), GlueError>)
        requires
            old(self).wf(),
            old(self)@.open(),
        ensures
            final(self).wf(),
            old(self)@.frames(final(self)@),
            old(self)@.run(pass_steps(VectorKind::F64)) == (Outcome {
                state: final(self)@,
                result: unit_view(r),
            }),
    {
        proof {
            lemma_steps_2(self@, top_layer(), pass_steps(VectorKind::F64));
        }
        self.expose_f64_memory();
        self.pass_array_to_wasm("passArrayF64ToWasm", "getFloat64Memory", 8)
    }

    /// Exposes a function `name` that passes a typed array of items of `size` bytes.
    fn pass_array_to_wasm(&mut self, name: &str, delegate: &str, size: usize) -> (r: Result<
        (),
        GlueError,
    >)
        requires
            old(self).wf(),
            old(self)@.open(),
        ensures
            final(self).wf(),
            old(self)@.frames(final(self)@),
            old(self)@.expose(
                Helper::PassArray { name: name@, delegate: delegate@, size: size as nat },
            ) == (Outcome { state: final(self)@, result: unit_view(r) }),
    {
        proof {
            let helper = Helper::PassArray { name: name@, delegate: delegate@, size: size as nat };
            lemma_expose(self@, helper);
            lemma_steps_3(self@.mark(helper.key()), helper.layer(), self@.steps(helper));
        }
        if !self.should_write_global(name) {
            return Ok(());
        }
        match self.require_internal_export("__wbindgen_malloc") {
            Ok(()) => {},
            Err(error) => return Err(error),
        }
        self.expose_wasm_vector_len();
        let size = to_decimal(size as u64);
        let mut item = PASS_ARRAY_0.to_string();
        item.append(name);
        item.append(PASS_ARRAY_1);
        item.append(size.as_str());
        item.append(PASS_ARRAY_2);
        item.append(delegate);
        item.append(PASS_ARRAY_3);
        item.append(size.as_str());
        item.append(PASS_ARRAY_4);
        self.global(item.as_str());
        Ok(())
    }

    /// Exposes the function that passes an array of JavaScript values.
    pub fn expose_pass_array_jsvalue_to_wasm(&mut self) -> (r: Result<(), GlueError>)
        requires
            old(self).wf(),
            old(self)@.open(),
            old(self)@.can_pass_values(),
        ensures
            final(self).wf(),
            old(self)@.frames(final(self)@),
            old(self)@.expose(Helper::PassArrayJsValue) == (Outcome {
                state: final(self)@,
                result: unit_view(r),
            }),
    {
        let ghost before = self@;
        proof {
            let helper = Helper::PassArrayJsValue;
            lemma_expose(self@, helper);
            lemma_steps_5(self@.mark(helper.key()), helper.layer(), self@.steps(helper));
        }
        if !self.should_write_global("pass_array_jsvalue") {
            return Ok(());
        }
        match self.require_internal_export("__wbindgen_malloc") {
            Ok(()) => {},
            Err(error) => return Err(error),
        }
        self.expose_uint32_memory();
        self.expose_wasm_vector_len();
        proof {
            lemma_tables_stay(before, self@);
        }
        if self.options().anyref {
            match self.expose_add_to_anyref_table() {
                Ok(()) => {},
                Err(error) => return Err(error),
            }
            self.global(PASS_ARRAY_JSVALUE_ANYREF);
        } else {
            self.expose_add_heap_object();
            self.global(PASS_ARRAY_JSVALUE_HEAP);
        }
        Ok(())
    }

    /// Exposes `TextEncoder`.
    pub fn expose_text_encoder(&mut self) -> (r: Result<(), GlueError>)
        requires
            old(self).wf(),
            old(self)@.open(),
        ensures
            final(self).wf(),
            old(self)@.frames(final(self)@),
            old(self)@.expose(Helper::TextEncoder) == (Outcome {
                state: final(self)@,
                result: unit_view(r),
            }),
    {
        proof {
            let helper = Helper::TextEncoder;
            lemma_expose(self@, helper);
            lemma_steps_1(self@.mark(helper.key()), helper.layer(), self@.steps(helper));
        }
        if !self.should_write_global("text_encoder") {
            return Ok(());
        }
        self.expose_text_processor("TextEncoder")
    }

    /// Exposes `TextDecoder`.
    pub fn expose_text_decoder(&mut self) -> (r: Result<(), GlueError>)
        requires
            old(self).wf(),
            old(self)@.open(),
        ensures
            final(self).wf(),
            old(self)@.frames(final(self)@),
            old(self)@.expose(Helper::TextDecoder) == (Outcome {
                state: final(self)@,
                result: unit_view(r),
            }),
    {
        proof {
            let helper = Helper::TextDecoder;
            lemma_expose(self@, helper);
            lemma_steps_1(self@.mark(helper.key()), helper.layer(), self@.steps(helper));
        }
        if !self.should_write_global("text_decoder") {
            return Ok(());
        }
        self.expose_text_processor("TextDecoder")
    }

    /// Makes `TextEncoder` or `TextDecoder` available.
    fn expose_text_processor(&mut self, s: &str) -> (r: Result<(), GlueError>)
        requires
            old(self).wf(),
        ensures
            final(self).wf(),
            old(self)@.frames(final(self)@),
            r is Ok,
            final(self)@ == old(self)@.text_processor(s@),
    {
        proof {
            reveal(GlueView::text_processor);
        }
        if self.options().mode.nodejs() {
            let import = JsImport {
                name: JsImportName::Module { module: "util".to_string(), name: s.to_string() },
                fields: Vec::new(),
            };
            assert(texts(import.fields@) == Seq::<Seq<char>>::empty());
            let name = match self.import_name(&import) {
                Ok(name) => name,
                Err(error) => return Err(error),
            };
            let mut item = PROCESSOR_NODE_0.to_string();
            item.append(s);
            item.append(PROCESSOR_NODE_1);
            item.append(name.as_str());
            item.append(PROCESSOR_NODE_2);
            self.global(item.as_str());
        } else if !self.options().mode.always_run_in_browser() {
            let mut lookup = PROCESSOR_LOOKUP_0.to_string();
            lookup.append(s);
            lookup.append(PROCESSOR_LOOKUP_1);
            lookup.append(s);
            lookup.append(PROCESSOR_LOOKUP_2);
            lookup.append(s);
            lookup.append(PROCESSOR_LOOKUP_3);
            lookup.append(s);
            lookup.append(PROCESSOR_LOOKUP_4);
            self.global(lookup.as_str());
            let mut item = PROCESSOR_FOUND_0.to_string();
            item.append(s);
            item.append(PROCESSOR_FOUND_1);
            item.append(s);
            item.append(PROCESSOR_FOUND_2);
            self.global(item.as_str());
        } else {
            let mut item = PROCESSOR_BROWSER_0.to_string();
            item.append(s);
            item.append(PROCESSOR_BROWSER_1);
            item.append(s);
            item.append(PROCESSOR_BROWSER_2);
            self.global(item.as_str());
        }
        Ok(())
    }

    /// Exposes the function that reads a string.
    pub fn expose_get_string_from_wasm(&mut self) -> (r: Result<(), GlueError>)
        requires
            old(self).wf(),
            old(self)@.open(),
        ensures
            final(self).wf(),
            old(self)@.frames(final(self)@),
            old(self)@.expose(Helper::GetString) == (Outcome {
                state: final(self)@,
                result: unit_view(r),
            }),
    {
        proof {
            let helper = Helper::GetString;
            lemma_expose(self@, helper);
            lemma_steps_3(self@.mark(helper.key()), helper.layer(), self@.steps(helper));
        }
        if !self.should_write_global("get_string_from_wasm") {
            return Ok(());
        }
        match self.expose_text_decoder() {
            Ok(()) => {},
            Err(error) => return Err(error),
        }
        self.expose_uint8_memory();
        // `TextDecoder` is handed a view of the memory, which saves a copy, unless threads share
        // the memory: it does not take a view of that.
        let is_shared = self.memory_is_shared();
        let method = if is_shared {
            "slice"
        } else {
            "subarray"
        };
        let mut item = GET_STRING_0.to_string();
        item.append(method);
        item.append(GET_STRING_1);
        self.global(item.as_str());
        Ok(())
    }

    /// Exposes the function that reads an array of JavaScript values.
    pub fn expose_get_array_js_value_from_wasm(&mut self) -> (r: Result<(), GlueError>)
        requires
            old(self).wf(),
            old(self)@.open(),
            old(self)@.can_read_values(),
        ensures
            final(self).wf(),
            old(self)@.frames(final(self)@),
            old(self)@.expose(Helper::GetArrayJsValue) == (Outcome {
                state: final(self)@,
                result: unit_view(r),
            }),
    {
        let ghost before = self@;
        proof {
            let helper = Helper::GetArrayJsValue;
            let marked = self@.mark(helper.key());
            let steps = self@.steps(helper);
            lemma_expose(self@, helper);
            if steps.len() == 4 {
                lemma_steps_4(marked, helper.layer(), steps);
            } else {
                lemma_steps_3(marked, helper.layer(), steps);
            }
        }
        if !self.should_write_global("get_array_js_value_from_wasm") {
            return Ok(());
        }
        self.expose_uint32_memory();
        proof {
            lemma_tables_stay(before, self@);
        }
        if self.options().anyref {
            self.expose_anyref_table();
            self.global(GET_ARRAY_JSVALUE_ANYREF);
            match self.require_internal_export("__wbindgen_drop_anyref_slice") {
                Ok(()) => {},
                Err(error) => return Err(error),
            }
        } else {
            self.expose_take_object();
            self.global(GET_ARRAY_JSVALUE_HEAP);
        }
        Ok(())
    }

    /// Exposes the function that reads an array of signed bytes.
    pub fn expose_get_array_i8_from_wasm(&mut self)
        requires
            old(self).wf(),
            old(self)@.open(),
        ensures
            final(self).wf(),
            old(self)@.frames(final(self)@),
            old(self)@.run(get_steps(VectorKind::I8)) == done(final(self)@, ()),
    {
        proof {
            lemma_steps_2(self@, top_layer(), get_steps(VectorKind::I8));
        }
        self.expose_int8_memory();
        self.arrayget("getArrayI8FromWasm", "getInt8Memory", 1);
    }

    /// Exposes the function that reads an array of bytes.
    pub fn expose_get_array_u8_from_wasm(&mut self)
        requires
            old(self).wf(),
            old(self)@.open(),
        ensures
            final(self).wf(),
            old(self)@.frames(final(self)@),
            old(self)@.run(get_steps(VectorKind::U8)) == done(final(self)@, ()),
    {
        proof {
            lemma_steps_2(self@, top_layer(), get_steps(VectorKind::U8));
        }
        self.expose_uint8_memory();
        self.arrayget("getArrayU8FromWasm", "getUint8Memory", 1);
    }

    /// Exposes the function that reads an array of clamped bytes.
    pub fn expose_get_clamped_array_u8_from_wasm(&mut self)
        requires
            old(self).wf(),
            old(self)@.open(),
        ensures
            final(self).wf(),
            old(self)@.frames(final(self)@),
            old(self)@.run(get_steps(VectorKind::ClampedU8)) == done(final(self)@, ()),
    {
        proof {
            lemma_steps_2(self@, top_layer(), get_steps(VectorKind::ClampedU8));
        }
        self.expose_clamped_uint8_memory();
        self.arrayget("getClampedArrayU8FromWasm", "getUint8ClampedMemory", 1);
    }

    /// Exposes the function that reads an array of signed 16-bit integers.
    pub fn expose_get_array_i16_from_wasm(&mut self)
        requires
            old(self).wf(),
            old(self)@.open(),
        ensures
            final(self).wf(),
            old(self)@.frames(final(self)@),
            old(self)@.run(get_steps(VectorKind::I16)) == done(final(self)@, ()),
    {
        proof {
            lemma_steps_2(self@, top_layer(), get_steps(VectorKind::I16));
        }
        self.expose_int16_memory();
        self.arrayget("getArrayI16FromWasm", "getInt16Memory", 2);
    }

    /// Exposes the function that reads an array of 16-bit integers.
    pub fn expose_get_array_u16_from_wasm(&mut self)
        requires
            old(self).wf(),
            old(self)@.open(),
        ensures
            final(self).wf(),
            old(self)@.frames(final(self)@),
            old(self)@.run(get_steps(VectorKind::U16)) == done(final(self)@, ()),
    {
        proof {
            lemma_steps_2(self@, top_layer(), get_steps(VectorKind::U16));
        }
        self.expose_uint16_memory();
        self.arrayget("getArrayU16FromWasm", "getUint16Memory", 2);
    }

    /// Exposes the function that reads an array of signed 32-bit integers.
    pub fn expose_get_array_i32_from_wasm(&mut self)
        requires
            old(self).wf(),
            old(self)@.open(),
        ensures
            final(self).wf(),
            old(self)@.frames(final(self)@),
            old(self)@.run(get_steps(VectorKind::I32)) == done(final(self)@, ()),
    {
        proof {
            lemma_steps_2(self@, top_layer(), get_steps(VectorKind::I32));
        }
        self.expose_int32_memory();
        self.arrayget("getArrayI32FromWasm", "getInt32Memory", 4);
    }

    /// Exposes the function that reads an array of 32-bit integers.
    pub fn expose_get_array_u32_from_wasm(&mut self)
        requires
            old(self).wf(),
            old(self)@.open(),
        ensures
            final(self).wf(),
            old(self)@.frames(final(self)@),
            old(self)@.run(get_steps(VectorKind::U32)) == done(final(self)@, ()),
    {
        proof {
            lemma_steps_2(self@, top_layer(), get_steps(VectorKind::U32));
        }
        self.expose_uint32_memory();
        self.arrayget("getArrayU32FromWasm", "getUint32Memory", 4);
    }

    /// Exposes the function that reads an array of signed 64-bit integers.
    pub fn expose_get_array_i64_from_wasm(&mut self)
        requires
            old(self).wf(),
            old(self)@.open(),
        ensures
            final(self).wf(),
            old(self)@.frames(final(self)@),
            old(self)@.run(get_steps(VectorKind::I64)) == done(final(self)@, ()),
    {
        proof {
            lemma_steps_2(self@, top_layer(), get_steps(VectorKind::I64));
        }
        self.expose_int64_memory();
        self.arrayget("getArrayI64FromWasm", "getInt64Memory", 8);
    }

    /// Exposes the function that reads an array of 64-bit integers.
    pub fn expose_get_array_u64_from_wasm(&mut self)
        requires
            old(self).wf(),
            old(self)@.open(),
        ensures
            final(self).wf(),
            old(self)@.frames(final(self)@),
            old(self)@.run(get_steps(VectorKind::U64)) == done(final(self)@, ()),
    {
        proof {
            lemma_steps_2(self@, top_layer(), get_steps(VectorKind::U64));
        }
        self.expose_uint64_memory();
        self.arrayget("getArrayU64FromWasm", "getUint64Memory", 8);
    }

    /// Exposes the function that reads an array of 32-bit floating-point numbers.
    pub fn expose_get_array_f32_from_wasm(&mut self)
        requires
            old(self).wf(),
            old(self)@.open(),
        ensures
            final(self).wf(),
            old(self)@.frames(final(self)@),
            old(self)@.run(get_steps(VectorKind::F32)) == done(final(self)@, ()),
    {
        proof {
            lemma_steps_2(self@, top_layer(), get_steps(VectorKind::F32));
        }
        self.expose_f32_memory();
        self.arrayget("getArrayF32FromWasm", "getFloat32Memory", 4);
    }

    /// Exposes the function that reads an array of 64-bit floating-point numbers.
    pub fn expose_get_array_f64_from_wasm(&mut self)
        requires
            old(self).wf(),
            old(self)@.open(),
        ensures
            final(self).wf(),
            old(self)@.frames(final(self)@),
            old(self)@.run(get_steps(VectorKind::F64)) == done(final(self)@, ()),
    {
        proof {
            lemma_steps_2(self@, top_layer(), get_steps(VectorKind::F64));
        }
        self.expose_f64_memory();
        self.arrayget("getArrayF64FromWasm", "getFloat64Memory", 8);
    }

    /// Exposes a function `name` that reads a typed array of items of `size` bytes.
    fn arrayget(&mut self, name: &str, mem: &str, size: usize)
        requires
            old(self).wf(),
            old(self)@.open(),
        ensures
            final(self).wf(),
            old(self)@.frames(final(self)@),
            old(self)@.expose(
                Helper::GetArray { name: name@, memory: mem@, size: size as nat },
            ) == done(final(self)@, ()),
    {
        proof {
            let helper = Helper::GetArray { name: name@, memory: mem@, size: size as nat };
            lemma_expose(self@, helper);
            lemma_steps_1(self@.mark(helper.key()), helper.layer(), self@.steps(helper));
        }
        if !self.should_write_global(name) {
            return ;
        }
        let size = to_decimal(size as u64);
        let mut item = ARRAYGET_0.to_string();
        item.append(name);
        item.append(ARRAYGET_1);
        item.append(mem);
        item.append(ARRAYGET_2);
        item.append(size.as_str());
        item.append(ARRAYGET_3);
        item.append(size.as_str());
        item.append(ARRAYGET_4);
        self.global(item.as_str());
    }

    /// Exposes the check that an object is of a class.
    pub fn expose_assert_class(&mut self)
        requires
            old(self).wf(),
            old(self)@.open(),
        ensures
            final(self).wf(),
            old(self)@.frames(final(self)@),
            old(self)@.expose(Helper::AssertClass) == done(final(self)@, ()),
    {
        proof {
            let helper = Helper::AssertClass;
            lemma_expose(self@, helper);
            lemma_steps_1(self@.mark(helper.key()), helper.layer(), self@.steps(helper));
        }
        if !self.should_write_global("assert_class") {
            return ;
        }
        self.global(ASSERT_CLASS);
    }

    /// Exposes the top of the stack.
    pub fn expose_global_stack_pointer(&mut self)
        requires
            old(self).wf(),
            old(self)@.open(),
        ensures
            final(self).wf(),
            old(self)@.frames(final(self)@),
            old(self)@.expose(Helper::StackPointer) == done(final(self)@, ()),
    {
        proof {
            let helper = Helper::StackPointer;
            lemma_expose(self@, helper);
            lemma_steps_1(self@.mark(helper.key()), helper.layer(), self@.steps(helper));
        }
        if !self.should_write_global("stack_pointer") {
            return ;
        }
        let mut item = STACK_POINTER_0.to_string();
        item.append(to_decimal(INITIAL_HEAP_OFFSET as u64).as_str());
        item.append(STACK_POINTER_1);
        self.global(item.as_str());
    }

    /// Exposes the function that puts a value on the stack.
    /// 
    /// The stack grows downwards, and whoever put a value there takes it off again. Running out of
    /// room throws.
    pub fn expose_borrowed_objects(&mut self)
        requires
            old(self).wf(),
            old(self)@.open(),
            !old(self)@.config.anyref,
        ensures
            final(self).wf(),
            old(self)@.frames(final(self)@),
            old(self)@.expose(Helper::BorrowedObjects) == done(final(self)@, ()),
    {
        proof {
            let helper = Helper::BorrowedObjects;
            lemma_expose(self@, helper);
            lemma_steps_3(self@.mark(helper.key()), helper.layer(), self@.steps(helper));
        }
        if !self.should_write_global("borrowed_objects") {
            return ;
        }
        self.expose_global_heap();
        self.expose_global_stack_pointer();
        self.global(BORROWED_OBJECTS);
    }

    /// Exposes the function that reads a slot of the heap and frees it.
    pub fn expose_take_object(&mut self)
        requires
            old(self).wf(),
            old(self)@.open(),
            !old(self)@.config.anyref,
        ensures
            final(self).wf(),
            old(self)@.frames(final(self)@),
            old(self)@.expose(Helper::TakeObject) == done(final(self)@, ()),
    {
        proof {
            let helper = Helper::TakeObject;
            lemma_expose(self@, helper);
            lemma_steps_3(self@.mark(helper.key()), helper.layer(), self@.steps(helper));
        }
        if !self.should_write_global("take_object") {
            return ;
        }
        self.expose_get_object();
        self.expose_drop_ref();
        self.global(TAKE_OBJECT);
    }

    /// Exposes the function that puts a value on the heap.
    /// 
    /// The free slots are a list that starts at `heap_next`. At its end the heap grows by a slot.
    pub fn expose_add_heap_object(&mut self)
        requires
            old(self).wf(),
            old(self)@.open(),
            !old(self)@.config.anyref,
        ensures
            final(self).wf(),
            old(self)@.frames(final(self)@),
            old(self)@.expose(Helper::AddHeapObject) == done(final(self)@, ()),
    {
        proof {
            let helper = Helper::AddHeapObject;
            lemma_expose(self@, helper);
            lemma_steps_3(self@.mark(helper.key()), helper.layer(), self@.steps(helper));
        }
        if !self.should_write_global("add_heap_object") {
            return ;
        }
        self.expose_global_heap();
        self.expose_global_heap_next();
        let set_heap_next = if self.options().debug {
            HEAP_CHECK
        } else {
            ""
        };
        let mut item = ADD_HEAP_OBJECT_0.to_string();
        item.append(set_heap_next);
        item.append(ADD_HEAP_OBJECT_1);
        self.global(item.as_str());
    }

    /// Exposes the function that hands an exception to the module.
    pub fn expose_handle_error(&mut self) -> (r: Result<(), GlueError>)
        requires
            old(self).wf(),
            old(self)@.open(),
            old(self)@.can_handle_errors(),
        ensures
            final(self).wf(),
            old(self)@.frames(final(self)@),
            old(self)@.expose(Helper::HandleError) == (Outcome {
                state: final(self)@,
                result: unit_view(r),
            }),
    {
        let ghost before = self@;
        proof {
            let helper = Helper::HandleError;
            lemma_expose(self@, helper);
            lemma_steps_3(self@.mark(helper.key()), helper.layer(), self@.steps(helper));
        }
        if !self.should_write_global("handle_error") {
            return Ok(());
        }
        self.expose_uint32_memory();
        proof {
            lemma_tables_stay(before, self@);
        }
        if self.options().anyref {
            match self.expose_add_to_anyref_table() {
                Ok(()) => {},
                Err(error) => return Err(error),
            }
            self.global(HANDLE_ERROR_ANYREF);
        } else {
            self.expose_add_heap_object();
            self.global(HANDLE_ERROR_HEAP);
        }
        Ok(())
    }

    /// Exposes where the module has room for arguments.
    pub fn expose_global_argument_ptr(&mut self) -> (r: Result<(), GlueError>)
        requires
            old(self).wf(),
            old(self)@.open(),
        ensures
            final(self).wf(),
            old(self)@.frames(final(self)@),
            old(self)@.expose(Helper::GlobalArgumentPtr) == (Outcome {
                state: final(self)@,
                result: unit_view(r),
            }),
    {
        proof {
            let helper = Helper::GlobalArgumentPtr;
            lemma_expose(self@, helper);
            lemma_steps_2(self@.mark(helper.key()), helper.layer(), self@.steps(helper));
        }
        if !self.should_write_global("global_argument_ptr") {
            return Ok(());
        }
        match self.require_internal_export("__wbindgen_global_argument_ptr") {
            Ok(()) => {},
            Err(error) => return Err(error),
        }
        self.global(GLOBAL_ARGUMENT_PTR);
        Ok(())
    }

    /// Exposes the function that finds a property of an object.
    /// 
    /// Some browsers move a property to a prototype, so the prototypes are searched too.
    pub fn expose_get_inherited_descriptor(&mut self)
        requires
            old(self).wf(),
            old(self)@.open(),
        ensures
            final(self).wf(),
            old(self)@.frames(final(self)@),
            old(self)@.expose(Helper::InheritedDescriptor) == done(final(self)@, ()),
    {
        proof {
            let helper = Helper::InheritedDescriptor;
            lemma_expose(self@, helper);
            lemma_steps_1(self@.mark(helper.key()), helper.layer(), self@.steps(helper));
        }
        if !self.should_write_global("get_inherited_descriptor") {
            return ;
        }
        self.global(GET_INHERITED_DESCRIPTOR);
    }

    /// Exposes room for two 32-bit integers, and gives its name.
    pub fn expose_u32_cvt_shim(&mut self) -> (r: &'static str)
        requires
            old(self).wf(),
            old(self)@.open(),
        ensures
            final(self).wf(),
            old(self)@.frames(final(self)@),
            r@ == Helper::U32Shim.key(),
            old(self)@.expose(Helper::U32Shim) == done(final(self)@, ()),
    {
        proof {
            let helper = Helper::U32Shim;
            lemma_expose(self@, helper);
            lemma_steps_1(self@.mark(helper.key()), helper.layer(), self@.steps(helper));
        }
        let name = "u32CvtShim";
        if !self.should_write_global(name) {
            return name;
        }
        let mut item = U32_CVT_SHIM_0.to_string();
        item.append(name);
        item.append(U32_CVT_SHIM_1);
        self.global(item.as_str());
        name
    }

    /// Exposes that room as a signed 64-bit integer, and gives its name.
    pub fn expose_int64_cvt_shim(&mut self) -> (r: &'static str)
        requires
            old(self).wf(),
            old(self)@.open(),
        ensures
            final(self).wf(),
            old(self)@.frames(final(self)@),
            r@ == Helper::Int64Shim.key(),
            old(self)@.expose(Helper::Int64Shim) == done(final(self)@, ()),
    {
        proof {
            let helper = Helper::Int64Shim;
            lemma_expose(self@, helper);
            lemma_steps_2(self@.mark(helper.key()), helper.layer(), self@.steps(helper));
        }
        let name = "int64CvtShim";
        if !self.should_write_global(name) {
            return name;
        }
        let n = self.expose_u32_cvt_shim();
        let mut item = INT64_CVT_SHIM_0.to_string();
        item.append(name);
        item.append(INT64_CVT_SHIM_1);
        item.append(n);
        item.append(INT64_CVT_SHIM_2);
        self.global(item.as_str());
        name
    }

    /// Exposes that room as an unsigned 64-bit integer, and gives its name.
    pub fn expose_uint64_cvt_shim(&mut self) -> (r: &'static str)
        requires
            old(self).wf(),
            old(self)@.open(),
        ensures
            final(self).wf(),
            old(self)@.frames(final(self)@),
            r@ == Helper::Uint64Shim.key(),
            old(self)@.expose(Helper::Uint64Shim) == done(final(self)@, ()),
    {
        proof {
            let helper = Helper::Uint64Shim;
            lemma_expose(self@, helper);
            lemma_steps_2(self@.mark(helper.key()), helper.layer(), self@.steps(helper));
        }
        let name = "uint64CvtShim";
        if !self.should_write_global(name) {
            return name;
        }
        let n = self.expose_u32_cvt_shim();
        let mut item = UINT64_CVT_SHIM_0.to_string();
        item.append(name);
        item.append(UINT64_CVT_SHIM_1);
        item.append(n);
        item.append(UINT64_CVT_SHIM_2);
        self.global(item.as_str());
        name
    }

    /// Exposes the check that a value is `undefined` or `null`.
    pub fn expose_is_like_none(&mut self)
        requires
            old(self).wf(),
            old(self)@.open(),
        ensures
            final(self).wf(),
            old(self)@.frames(final(self)@),
            old(self)@.expose(Helper::IsLikeNone) == done(final(self)@, ()),
    {
        proof {
            let helper = Helper::IsLikeNone;
            lemma_expose(self@, helper);
            lemma_steps_1(self@.mark(helper.key()), helper.layer(), self@.steps(helper));
        }
        if !self.should_write_global("is_like_none") {
            return ;
        }
        self.global(IS_LIKE_NONE);
    }

    /// Exports the table of JavaScript values from the module.
    pub fn expose_anyref_table(&mut self)
        requires
            old(self).wf(),
            old(self)@.open(),
            old(self)@.config.anyref,
            old(self)@.has_anyref_table(),
        ensures
            final(self).wf(),
            old(self)@.frames(final(self)@),
            old(self)@.expose(Helper::AnyrefTable) == done(final(self)@, ()),
    {
        proof {
            let helper = Helper::AnyrefTable;
            lemma_expose(self@, helper);
            lemma_steps_1(self@.mark(helper.key()), helper.layer(), self@.steps(helper));
        }
        if !self.should_write_global("anyref_table") {
            return ;
        }
        proof {
            reveal(GlueView::export_anyref_table);
        }
        match self.first_anyref_table() {
            Some(table) => self.export_table("__wbg_anyref_table", table),
            None => vstd::pervasive::unreached(),
        }
    }

    /// Whether the table of JavaScript values is exported or can be.
    pub fn has_anyref_table(&self) -> (r: bool)
        ensures
            r == self@.has_anyref_table(),
    {
        self.is_exposed("anyref_table") || self.first_anyref_table().is_some()
    }

    /// Whether the function that puts values into the table is exposed or can be.
    pub fn can_add_values(&self) -> (r: bool)
        ensures
            r == self@.can_add_values(),
    {
        self.is_exposed("add_to_anyref_table") || self.has_anyref_table()
    }

    /// Whether the function that passes an array of JavaScript values can be asked for.
    pub fn can_pass_values(&self) -> (r: bool)
        ensures
            r == self@.can_pass_values(),
    {
        !self.options().anyref || self.is_exposed("pass_array_jsvalue") || !self.can_require(
            "__wbindgen_malloc",
        ) || self.can_add_values()
    }

    /// Whether the function that reads an array of JavaScript values can be asked for.
    pub fn can_read_values(&self) -> (r: bool)
        ensures
            r == self@.can_read_values(),
    {
        !self.options().anyref || self.is_exposed("get_array_js_value_from_wasm")
            || self.has_anyref_table()
    }

    /// Whether the function that hands an exception to the module can be asked for.
    pub fn can_handle_errors(&self) -> (r: bool)
        ensures
            r == self@.can_handle_errors(),
    {
        !self.options().anyref || self.is_exposed("handle_error") || self.can_add_values()
    }

    /// Exposes the function that puts a value into the table of the module.
    pub fn expose_add_to_anyref_table(&mut self) -> (r: Result<(), GlueError>)
        requires
            old(self).wf(),
            old(self)@.open(),
            old(self)@.config.anyref,
            old(self)@.can_add_values(),
        ensures
            final(self).wf(),
            old(self)@.frames(final(self)@),
            old(self)@.expose(Helper::AddToAnyrefTable) == (Outcome {
                state: final(self)@,
                result: unit_view(r),
            }),
    {
        proof {
            let helper = Helper::AddToAnyrefTable;
            lemma_expose(self@, helper);
            lemma_steps_3(self@.mark(helper.key()), helper.layer(), self@.steps(helper));
        }
        if !self.should_write_global("add_to_anyref_table") {
            return Ok(());
        }
        self.expose_anyref_table();
        match self.require_internal_export("__wbindgen_anyref_table_alloc") {
            Ok(()) => {},
            Err(error) => return Err(error),
        }
        self.global(ADD_TO_ANYREF_TABLE);
        Ok(())
    }

    /// Exposes the function that describes a value.
    pub fn expose_debug_string(&mut self)
        requires
            old(self).wf(),
            old(self)@.open(),
        ensures
            final(self).wf(),
            old(self)@.frames(final(self)@),
            old(self)@.expose(Helper::DebugString) == done(final(self)@, ()),
    {
        proof {
            let helper = Helper::DebugString;
            lemma_expose(self@, helper);
            lemma_steps_1(self@.mark(helper.key()), helper.layer(), self@.steps(helper));
        }
        if !self.should_write_global("debug_string") {
            return ;
        }
        self.global(DEBUG_STRING);
    }

    /// Exports the table of functions from the module, which has to be the only one.
    pub fn export_function_table(&mut self) -> (r: Result<(), GlueError>)
        requires
            old(self).wf(),
            old(self)@.open(),
        ensures
            final(self).wf(),
            old(self)@.frames(final(self)@),
            old(self)@.expose(Helper::FunctionTable) == (Outcome {
                state: final(self)@,
                result: unit_view(r),
            }),
    {
        proof {
            let helper = Helper::FunctionTable;
            lemma_expose(self@, helper);
            lemma_steps_1(self@.mark(helper.key()), helper.layer(), self@.steps(helper));
        }
        if !self.should_write_global("wbg-function-table") {
            return Ok(());
        }
        proof {
            reveal(Context::model);
            reveal(GlueView::export_function_table);
        }
        let ghost view = self@.module;
        let table = match main_function_table(self.module) {
            Ok(Some(table)) => table,
            Ok(None) => return Err(GlueError::NoFunctionTable),
            Err(_) => {
                proof {
                    lemma_several_tables(view);
                }
                return Err(GlueError::MultipleFunctionTables);
            },
        };
        proof {
            assert(view.is_table(TableKind::Function, table));
            assert(view.is_first_table(TableKind::Function, table));
        }
        self.export_table("__wbg_function_table", table);
        Ok(())
    }

    /// The first table of JavaScript values, if there is one.
    fn first_anyref_table(&self) -> (r: Option<usize>)
        ensures
            match r {
                Some(i) => self@.module.is_table(TableKind::Anyref, i) && i
                    == self@.module.first_table(TableKind::Anyref),
                None => !self@.module.has_table(TableKind::Anyref),
            },
    {
        proof {
            reveal(Context::model);
        }
        let list = tables(self.module);
        let ghost view = self@.module;
        let ghost ids = list@.map_values(|table: (usize, TableKind)| table.0);
        let mut i: usize = 0;
        while i < list.len()
            invariant
                i <= list.len(),
                view == self@.module,
                ids == list@.map_values(|table: (usize, TableKind)| table.0),
                ascending_ids(ids),
                ids.to_set() == view.tables.dom(),
                forall|j: int|
                    0 <= j < list@.len() ==> (#[trigger] list@[j]).1 == view.tables[list@[j].0],
                forall|j: int| 0 <= j < i ==> !((#[trigger] list@[j]).1 is Anyref),
            decreases list.len() - i,
        {
            if let TableKind::Anyref = list[i].1 {
                let table = list[i].0;
                proof {
                    assert(ids[i as int] == table);
                    assert(ids.to_set().contains(table));
                    assert(view.is_table(TableKind::Anyref, table));
                    assert forall|j: usize| #[trigger] view.is_table(
                        TableKind::Anyref,
                        j,
                    ) implies table <= j by {
                        assert(ids.to_set().contains(j));
                        let k = choose|k: int| 0 <= k < ids.len() && ids[k] == j;
                        assert(list@[k].1 is Anyref);
                    }
                    assert(view.is_first_table(TableKind::Anyref, table));
                }
                return Some(table);
            }
            i += 1;
        }
        proof {
            if view.has_table(TableKind::Anyref) {
                let id = choose|i: usize| #[trigger] view.is_table(TableKind::Anyref, i);
                assert(ids.to_set().contains(id));
                let k = choose|k: int| 0 <= k < ids.len() && ids[k] == id;
                assert(list@[k].1 is Anyref);
            }
        }
        None
    }

    /// Exposes the function that gives a view of the memory for items of that kind, and gives its
    /// name.
    pub fn memview_function(&mut self, t: VectorKind) -> (r: &'static str)
        requires
            old(self).wf(),
            old(self)@.open(),
        ensures
            final(self).wf(),
            old(self)@.frames(final(self)@),
            r@ == kind_memory(t).key(),
            old(self)@.expose(kind_memory(t)) == done(final(self)@, ()),
    {
        match t {
            VectorKind::String => {
                self.expose_uint8_memory();
                "getUint8Memory"
            },
            VectorKind::I8 => {
                self.expose_int8_memory();
                "getInt8Memory"
            },
            VectorKind::U8 => {
                self.expose_uint8_memory();
                "getUint8Memory"
            },
            VectorKind::ClampedU8 => {
                self.expose_clamped_uint8_memory();
                "getUint8ClampedMemory"
            },
            VectorKind::I16 => {
                self.expose_int16_memory();
                "getInt16Memory"
            },
            VectorKind::U16 => {
                self.expose_uint16_memory();
                "getUint16Memory"
            },
            VectorKind::I32 => {
                self.expose_int32_memory();
                "getInt32Memory"
            },
            VectorKind::U32 => {
                self.expose_uint32_memory();
                "getUint32Memory"
            },
            VectorKind::I64 => {
                self.expose_int64_memory();
                "getInt64Memory"
            },
            VectorKind::U64 => {
                self.expose_uint64_memory();
                "getUint64Memory"
            },
            VectorKind::F32 => {
                self.expose_f32_memory();
                "getFloat32Memory"
            },
            VectorKind::F64 => {
                self.expose_f64_memory();
                "getFloat64Memory"
            },
            VectorKind::Anyref => {
                self.expose_uint32_memory();
                "getUint32Memory"
            },
        }
    }

    /// Exposes the function that passes items of that kind, and gives its name.
    pub fn pass_to_wasm_function(&mut self, t: VectorKind) -> (r: Result<&'static str, GlueError>)
        requires
            old(self).wf(),
            old(self)@.open(),
            t is Anyref ==> old(self)@.can_pass_values(),
        ensures
            final(self).wf(),
            old(self)@.frames(final(self)@),
            old(self)@.run(pass_steps(t)) == (Outcome {
                state: final(self)@,
                result: no_name(r),
            }),
            r matches Ok(name) ==> name@ == pass_name(t),
    {
        proof {
            if t is String || t is Anyref {
                lemma_steps_1(self@, top_layer(), pass_steps(t));
            }
        }
        match t {
            VectorKind::String => match self.expose_pass_string_to_wasm() {
                Ok(()) => Ok("passStringToWasm"),
                Err(error) => Err(error),
            },
            VectorKind::I8 | VectorKind::U8 | VectorKind::ClampedU8 => {
                match self.expose_pass_array8_to_wasm() {
                    Ok(()) => Ok("passArray8ToWasm"),
                    Err(error) => Err(error),
                }
            },
            VectorKind::U16 | VectorKind::I16 => match self.expose_pass_array16_to_wasm() {
                Ok(()) => Ok("passArray16ToWasm"),
                Err(error) => Err(error),
            },
            VectorKind::I32 | VectorKind::U32 => match self.expose_pass_array32_to_wasm() {
                Ok(()) => Ok("passArray32ToWasm"),
                Err(error) => Err(error),
            },
            VectorKind::I64 | VectorKind::U64 => match self.expose_pass_array64_to_wasm() {
                Ok(()) => Ok("passArray64ToWasm"),
                Err(error) => Err(error),
            },
            VectorKind::F32 => match self.expose_pass_array_f32_to_wasm() {
                Ok(()) => Ok("passArrayF32ToWasm"),
                Err(error) => Err(error),
            },
            VectorKind::F64 => match self.expose_pass_array_f64_to_wasm() {
                Ok(()) => Ok("passArrayF64ToWasm"),
                Err(error) => Err(error),
            },
            VectorKind::Anyref => match self.expose_pass_array_jsvalue_to_wasm() {
                Ok(()) => Ok("passArrayJsValueToWasm"),
                Err(error) => Err(error),
            },
        }
    }

    /// Exposes the function that reads items of that kind, and gives its name.
    pub fn expose_get_vector_from_wasm(&mut self, ty: VectorKind) -> (r: Result<
        &'static str,
        GlueError,
    >)
        requires
            old(self).wf(),
            old(self)@.open(),
            ty is Anyref ==> old(self)@.can_read_values(),
        ensures
            final(self).wf(),
            old(self)@.frames(final(self)@),
            old(self)@.run(get_steps(ty)) == (Outcome {
                state: final(self)@,
                result: no_name(r),
            }),
            r matches Ok(name) ==> name@ == get_name(ty),
    {
        proof {
            if ty is String || ty is Anyref {
                lemma_steps_1(self@, top_layer(), get_steps(ty));
            }
        }
        match ty {
            VectorKind::String => match self.expose_get_string_from_wasm() {
                Ok(()) => Ok("getStringFromWasm"),
                Err(error) => Err(error),
            },
            VectorKind::I8 => {
                self.expose_get_array_i8_from_wasm();
                Ok("getArrayI8FromWasm")
            },
            VectorKind::U8 => {
                self.expose_get_array_u8_from_wasm();
                Ok("getArrayU8FromWasm")
            },
            VectorKind::ClampedU8 => {
                self.expose_get_clamped_array_u8_from_wasm();
                Ok("getClampedArrayU8FromWasm")
            },
            VectorKind::I16 => {
                self.expose_get_array_i16_from_wasm();
                Ok("getArrayI16FromWasm")
            },
            VectorKind::U16 => {
                self.expose_get_array_u16_from_wasm();
                Ok("getArrayU16FromWasm")
            },
            VectorKind::I32 => {
                self.expose_get_array_i32_from_wasm();
                Ok("getArrayI32FromWasm")
            },
            VectorKind::U32 => {
                self.expose_get_array_u32_from_wasm();
                Ok("getArrayU32FromWasm")
            },
            VectorKind::I64 => {
                self.expose_get_array_i64_from_wasm();
                Ok("getArrayI64FromWasm")
            },
            VectorKind::U64 => {
                self.expose_get_array_u64_from_wasm();
                Ok("getArrayU64FromWasm")
            },
            VectorKind::F32 => {
                self.expose_get_array_f32_from_wasm();
                Ok("getArrayF32FromWasm")
            },
            VectorKind::F64 => {
                self.expose_get_array_f64_from_wasm();
                Ok("getArrayF64FromWasm")
            },
            VectorKind::Anyref => match self.expose_get_array_js_value_from_wasm() {
                Ok(()) => Ok("getArrayJsValueFromWasm"),
                Err(error) => Err(error),
            },
        }
    }

    /// An expression that reads a value and gives up its place; `expr` is where it is.
    pub fn take_object(&mut self, expr: &str) -> (r: String)
        requires
            old(self).wf(),
            !old(self)@.config.anyref ==> old(self)@.open(),
        ensures
            final(self).wf(),
            old(self)@.frames(final(self)@),
            r@ == object_taken(old(self)@.config.anyref, expr@),
            if old(self)@.config.anyref {
                r@ == expr@ && final(self)@ == old(self)@
            } else {
                &&& r@ == "takeObject("@ + expr@ + ")"@
                &&& old(self)@.expose(Helper::TakeObject) == done(final(self)@, ())
            },
    {
        if self.options().anyref {
            expr.to_string()
        } else {
            self.expose_take_object();
            let mut r = "takeObject(".to_string();
            r.append(expr);
            r.append(")");
            r
        }
    }

    /// An expression that reads a value; `expr` is where it is.
    pub fn get_object(&mut self, expr: &str) -> (r: String)
        requires
            old(self).wf(),
            !old(self)@.config.anyref ==> old(self)@.open(),
        ensures
            final(self).wf(),
            old(self)@.frames(final(self)@),
            r@ == object_read(old(self)@.config.anyref, expr@),
            if old(self)@.config.anyref {
                r@ == expr@ && final(self)@ == old(self)@
            } else {
                &&& r@ == "getObject("@ + expr@ + ")"@
                &&& old(self)@.expose(Helper::GetObject) == done(final(self)@, ())
            },
    {
        if self.options().anyref {
            expr.to_string()
        } else {
            self.expose_get_object();
            let mut r = "getObject(".to_string();
            r.append(expr);
            r.append(")");
            r
        }
    }
}

/// Where there are several tables of functions, one is not the first.
proof fn lemma_several_tables(view: ModuleView)
    requires
        exists|i: usize, j: usize|
            i != j && #[trigger] view.is_table(TableKind::Function, i) && #[trigger] view.is_table(
                TableKind::Function,
                j,
            ),
    ensures
        view.has_table(TableKind::Function),
        exists|i: usize|
            i != view.first_table(TableKind::Function) && #[trigger] view.is_table(
                TableKind::Function,
                i,
            ),
{
    let (i, j) = choose|i: usize, j: usize|
        i != j && #[trigger] view.is_table(TableKind::Function, i) && #[trigger] view.is_table(
            TableKind::Function,
            j,
        );
    let first = view.first_table(TableKind::Function);
    assert(i != first && view.is_table(TableKind::Function, i) || j != first && view.is_table(
        TableKind::Function,
        j,
    ));
}

} // verus!
