//! The helpers, seen through the finished glue.
use wasm_glue::config::{Bindgen, EncodeInto, OutputMode, VectorKind};
use wasm_glue::context::Context;
use wasm_glue::error::GlueError;

fn options(mode: OutputMode) -> Bindgen {
    Bindgen {
        mode,
        debug: false,
        emit_start: true,
        weak_refs: false,
        anyref: false,
        encode_into: EncodeInto::Test,
    }
}

fn bundler() -> Bindgen {
    options(OutputMode::Bundler { browser_only: false })
}

/// A module whose memory is exported, and which exports everything that helpers require.
fn module() -> walrus::Module {
    let mut module = walrus::Module::default();
    let memory = module.memories.add_local(false, 1, None);
    module.exports.add("memory", memory);
    for name in [
        "__wbindgen_malloc",
        "__wbindgen_realloc",
        "__wbindgen_global_argument_ptr",
        "__wbindgen_anyref_table_alloc",
        "__wbindgen_drop_anyref_slice",
    ] {
        module.exports.add(name, memory);
    }
    module
}

/// The items of the glue behind the import of the module.
fn items(context: &mut Context) -> String {
    let (js, _) = context.finalize("demo").ok().unwrap();
    let start = "import * as wasm from './demo_bg';\n\n";
    assert!(js.starts_with(start));
    js[start.len()..].to_string()
}

fn export_names(module: &walrus::Module) -> Vec<String> {
    module.exports.iter().map(|export| export.name.clone()).collect()
}

#[test]
fn nothing_is_exposed_at_first() {
    let config = bundler();
    let mut module = module();
    let mut context = Context::new(&mut module, &config).ok().unwrap();
    let (js, ts) = context.finalize("demo").ok().unwrap();
    assert_eq!(js, "import * as wasm from './demo_bg';\n\n");
    assert_eq!(ts, "/* tslint:disable */\n");
}

#[test]
fn taking_an_object_brings_the_heap() {
    let config = bundler();
    let mut module = module();
    let mut context = Context::new(&mut module, &config).ok().unwrap();
    assert_eq!(context.take_object("x"), "takeObject(x)");
    assert_eq!(
        items(&mut context),
        "const heap = new Array(32);

heap.fill(undefined);

heap.push(undefined, null, true, false);

function getObject(idx) { return heap[idx]; }

let heap_next = heap.length;

function dropObject(idx) {
                if (idx < 36) return;
                heap[idx] = heap_next;
                heap_next = idx;
            }

function takeObject(idx) {
                const ret = getObject(idx);
                dropObject(idx);
                return ret;
            }

"
    );
}

#[test]
fn helpers_are_written_once() {
    let config = bundler();
    let mut module = module();
    let mut context = Context::new(&mut module, &config).ok().unwrap();
    context.expose_is_like_none();
    context.expose_is_like_none();
    context.expose_global_stack_pointer();
    context.expose_is_like_none();
    assert_eq!(
        items(&mut context),
        "function isLikeNone(x) {
                return x === undefined || x === null;
            }

let stack_pointer = 32;

"
    );
}

#[test]
fn with_a_table_objects_stand_for_themselves() {
    let mut config = bundler();
    config.anyref = true;
    let mut module = module();
    let mut context = Context::new(&mut module, &config).ok().unwrap();
    assert_eq!(context.take_object("x"), "x");
    assert_eq!(context.get_object("y"), "y");
    assert_eq!(items(&mut context), "");
}

#[test]
fn strings_for_a_bundler() {
    let config = bundler();
    let mut module = module();
    let mut context = Context::new(&mut module, &config).ok().unwrap();
    let name = context.pass_to_wasm_function(VectorKind::String).ok().unwrap();
    assert_eq!(name, "passStringToWasm");
    let js = items(&mut context);
    let start = "let WASM_VECTOR_LEN = 0;

const lTextEncoder = typeof TextEncoder === 'undefined' ? require('util').TextEncoder : TextEncoder;

let cachedTextEncoder = new lTextEncoder('utf-8');

let cachegetUint8Memory = null;
            function getUint8Memory() {
                if (cachegetUint8Memory === null || cachegetUint8Memory.buffer !== wasm.memory.buffer) {
                    cachegetUint8Memory = new Uint8Array(wasm.memory.buffer);
                }
                return cachegetUint8Memory;
            }

let passStringToWasm;
                        if (typeof cachedTextEncoder.encodeInto === 'function') {
                            passStringToWasm = function(arg) { \n";
    assert_eq!(&js[..start.len()], start);
    assert_eq!(js.matches("cachedTextEncoder.encodeInto(arg, view)").count(), 1);
    assert_eq!(js.matches("cachedTextEncoder.encode(arg.slice(offset))").count(), 1);
    let names = export_names(&module);
    assert_eq!(names, vec!["memory", "__wbindgen_malloc", "__wbindgen_realloc"]);
}

#[test]
fn strings_without_encode_into() {
    let mut config = bundler();
    config.encode_into = EncodeInto::Never;
    let mut module = module();
    let mut context = Context::new(&mut module, &config).ok().unwrap();
    assert!(context.expose_pass_string_to_wasm().is_ok());
    let js = items(&mut context);
    assert!(js.ends_with(
        "function passStringToWasm(arg) { 
                
                
                let size = arg.length;
                let ptr = wasm.__wbindgen_malloc(size);
                let offset = 0;
                {
                    const mem = getUint8Memory();
                    for (; offset < arg.length; offset++) {
                        const code = arg.charCodeAt(offset);
                        if (code > 0x7F) break;
                        mem[ptr + offset] = code;
                    }
                }
            
                if (offset !== arg.length) {
                    const buf = cachedTextEncoder.encode(arg.slice(offset));
                    ptr = wasm.__wbindgen_realloc(ptr, size, size = offset + buf.length);
                    getUint8Memory().set(buf, ptr + offset);
                    offset += buf.length;
                }
                WASM_VECTOR_LEN = offset;
                return ptr;
             }

"
    ));
    let names = export_names(&module);
    assert_eq!(names, vec!["memory", "__wbindgen_malloc", "__wbindgen_realloc"]);
}

#[test]
fn strings_with_encode_into() {
    let mut config = bundler();
    config.encode_into = EncodeInto::Always;
    config.debug = true;
    let mut module = module();
    let mut context = Context::new(&mut module, &config).ok().unwrap();
    assert!(context.expose_pass_string_to_wasm().is_ok());
    let js = items(&mut context);
    assert!(js.contains(
        "                    const ret = cachedTextEncoder.encodeInto(arg, view);
                    if (ret.read != arg.length) throw new Error('failed to pass whole string');
                    offset += ret.written;
"
    ));
    assert!(js.contains(
        "if (typeof(arg) !== 'string') throw new Error('expected a string argument');"
    ));
    assert!(!js.contains("TextEncoder.encode("));
}

#[test]
fn shared_memory_is_copied() {
    let mut config = bundler();
    config.encode_into = EncodeInto::Always;
    let mut module = walrus::Module::default();
    let memory = module.memories.add_local(true, 1, Some(2));
    module.exports.add("memory", memory);
    module.exports.add("__wbindgen_malloc", memory);
    module.exports.add("__wbindgen_realloc", memory);
    let mut context = Context::new(&mut module, &config).ok().unwrap();
    assert!(context.expose_pass_string_to_wasm().is_ok());
    let name = context.expose_get_vector_from_wasm(VectorKind::String).ok().unwrap();
    assert_eq!(name, "getStringFromWasm");
    let js = items(&mut context);
    assert!(!js.contains("encodeInto"));
    assert!(js.ends_with(
        "function getStringFromWasm(ptr, len) {
                return cachedTextDecoder.decode(getUint8Memory().slice(ptr, ptr + len));
            }

"
    ));
    let names = export_names(&module);
    assert_eq!(names, vec!["memory", "__wbindgen_malloc", "__wbindgen_realloc"]);
}

#[test]
fn strings_for_node() {
    let config = options(OutputMode::Node { experimental_modules: false });
    let mut module = module();
    let mut context = Context::new(&mut module, &config).ok().unwrap();
    assert!(context.expose_pass_string_to_wasm().is_ok());
    assert!(context.expose_get_string_from_wasm().is_ok());
    let (js, _) = context.finalize("demo").ok().unwrap();
    assert_eq!(
        js,
        "let wasm;
const { TextDecoder } = require(String.raw`util`);

let WASM_VECTOR_LEN = 0;

let cachegetNodeBufferMemory = null;
            function getNodeBufferMemory() {
                if (cachegetNodeBufferMemory === null || cachegetNodeBufferMemory.buffer !== wasm.memory.buffer) {
                    cachegetNodeBufferMemory = Buffer.from(wasm.memory.buffer);
                }
                return cachegetNodeBufferMemory;
            }

function passStringToWasm(arg) {
                        
                        const size = Buffer.byteLength(arg);
                        const ptr = wasm.__wbindgen_malloc(size);
                        getNodeBufferMemory().write(arg, ptr, size);
                        WASM_VECTOR_LEN = size;
                        return ptr;
                    }

let cachedTextDecoder = new TextDecoder('utf-8');

let cachegetUint8Memory = null;
            function getUint8Memory() {
                if (cachegetUint8Memory === null || cachegetUint8Memory.buffer !== wasm.memory.buffer) {
                    cachegetUint8Memory = new Uint8Array(wasm.memory.buffer);
                }
                return cachegetUint8Memory;
            }

function getStringFromWasm(ptr, len) {
                return cachedTextDecoder.decode(getUint8Memory().subarray(ptr, ptr + len));
            }

wasm = require('./demo_bg');

"
    );
}

#[test]
fn decoders_of_browsers_are_there() {
    let config = options(OutputMode::Bundler { browser_only: true });
    let mut module = module();
    let mut context = Context::new(&mut module, &config).ok().unwrap();
    assert!(context.expose_text_decoder().is_ok());
    assert!(context.expose_text_encoder().is_ok());
    assert_eq!(
        items(&mut context),
        "let cachedTextDecoder = new TextDecoder('utf-8');

let cachedTextEncoder = new TextEncoder('utf-8');

"
    );
}

#[test]
fn arrays_are_passed() {
    let config = bundler();
    let mut module = module();
    let mut context = Context::new(&mut module, &config).ok().unwrap();
    let name = context.pass_to_wasm_function(VectorKind::U16).ok().unwrap();
    assert_eq!(name, "passArray16ToWasm");
    assert_eq!(
        items(&mut context),
        "let cachegetUint16Memory = null;
            function getUint16Memory() {
                if (cachegetUint16Memory === null || cachegetUint16Memory.buffer !== wasm.memory.buffer) {
                    cachegetUint16Memory = new Uint16Array(wasm.memory.buffer);
                }
                return cachegetUint16Memory;
            }

let WASM_VECTOR_LEN = 0;

function passArray16ToWasm(arg) {
                const ptr = wasm.__wbindgen_malloc(arg.length * 2);
                getUint16Memory().set(arg, ptr / 2);
                WASM_VECTOR_LEN = arg.length;
                return ptr;
            }

"
    );
}

#[test]
fn arrays_are_read() {
    let config = bundler();
    let mut module = module();
    let mut context = Context::new(&mut module, &config).ok().unwrap();
    let name = context.expose_get_vector_from_wasm(VectorKind::F64).ok().unwrap();
    assert_eq!(name, "getArrayF64FromWasm");
    assert_eq!(
        items(&mut context),
        "let cachegetFloat64Memory = null;
            function getFloat64Memory() {
                if (cachegetFloat64Memory === null || cachegetFloat64Memory.buffer !== wasm.memory.buffer) {
                    cachegetFloat64Memory = new Float64Array(wasm.memory.buffer);
                }
                return cachegetFloat64Memory;
            }

function getArrayF64FromWasm(ptr, len) {
                return getFloat64Memory().subarray(ptr / 8, ptr / 8 + len);
            }

"
    );
}

#[test]
fn names_of_vector_functions() {
    let config = bundler();
    let mut module = module();
    let mut context = Context::new(&mut module, &config).ok().unwrap();
    let kinds = [
        (VectorKind::I8, "passArray8ToWasm", "getArrayI8FromWasm", "getInt8Memory"),
        (VectorKind::U8, "passArray8ToWasm", "getArrayU8FromWasm", "getUint8Memory"),
        (
            VectorKind::ClampedU8,
            "passArray8ToWasm",
            "getClampedArrayU8FromWasm",
            "getUint8ClampedMemory",
        ),
        (VectorKind::I16, "passArray16ToWasm", "getArrayI16FromWasm", "getInt16Memory"),
        (VectorKind::U16, "passArray16ToWasm", "getArrayU16FromWasm", "getUint16Memory"),
        (VectorKind::I32, "passArray32ToWasm", "getArrayI32FromWasm", "getInt32Memory"),
        (VectorKind::U32, "passArray32ToWasm", "getArrayU32FromWasm", "getUint32Memory"),
        (VectorKind::I64, "passArray64ToWasm", "getArrayI64FromWasm", "getInt64Memory"),
        (VectorKind::U64, "passArray64ToWasm", "getArrayU64FromWasm", "getUint64Memory"),
        (VectorKind::F32, "passArrayF32ToWasm", "getArrayF32FromWasm", "getFloat32Memory"),
        (VectorKind::F64, "passArrayF64ToWasm", "getArrayF64FromWasm", "getFloat64Memory"),
        (VectorKind::String, "passStringToWasm", "getStringFromWasm", "getUint8Memory"),
        (
            VectorKind::Anyref,
            "passArrayJsValueToWasm",
            "getArrayJsValueFromWasm",
            "getUint32Memory",
        ),
    ];
    for (kind, pass, get, view) in kinds {
        assert_eq!(context.pass_to_wasm_function(kind).ok().unwrap(), pass);
        assert_eq!(context.expose_get_vector_from_wasm(kind).ok().unwrap(), get);
        assert_eq!(context.memview_function(kind), view);
    }
    let js = items(&mut context);
    for (_, pass, get, view) in kinds {
        if pass != "passStringToWasm" {
            assert_eq!(js.matches(&format!("function {}(", pass)).count(), 1);
        }
        assert_eq!(js.matches(&format!("function {}(", get)).count(), 1);
        assert_eq!(js.matches(&format!("function {}(", view)).count(), 1);
    }
}

#[test]
fn imported_memory_has_another_name() {
    let config = bundler();
    let mut module = walrus::Module::default();
    let memory = module.add_import_memory("env", "memory", false, 1, None);
    module.exports.add("again", memory);
    let mut context = Context::new(&mut module, &config).ok().unwrap();
    context.expose_int32_memory();
    let js = items(&mut context);
    assert!(js.contains("cachegetInt32Memory = new Int32Array(memory.buffer);"));
}

#[test]
fn conversions_of_integers() {
    let config = bundler();
    let mut module = module();
    let mut context = Context::new(&mut module, &config).ok().unwrap();
    assert_eq!(context.expose_int64_cvt_shim(), "int64CvtShim");
    assert_eq!(context.expose_uint64_cvt_shim(), "uint64CvtShim");
    assert_eq!(context.expose_u32_cvt_shim(), "u32CvtShim");
    assert_eq!(
        items(&mut context),
        "const u32CvtShim = new Uint32Array(2);

const int64CvtShim = new BigInt64Array(u32CvtShim.buffer);

const uint64CvtShim = new BigUint64Array(u32CvtShim.buffer);

"
    );
}

#[test]
fn errors_on_the_heap() {
    let mut config = bundler();
    config.debug = true;
    let mut module = module();
    let mut context = Context::new(&mut module, &config).ok().unwrap();
    assert!(context.expose_handle_error().is_ok());
    let js = items(&mut context);
    assert!(js.contains(
        "                heap_next = heap[idx];
                
                if (typeof(heap_next) !== 'number') throw new Error('corrupt heap');
                
                heap[idx] = obj;
"
    ));
    assert!(js.ends_with(
        "function handleError(exnptr, e) {
                    const view = getUint32Memory();
                    view[exnptr / 4] = 1;
                    view[exnptr / 4 + 1] = addHeapObject(e);
                }

"
    ));
}

#[test]
fn errors_in_the_table() {
    let mut config = bundler();
    config.anyref = true;
    let mut module = module();
    let anyref = walrus::TableKind::Anyref(Default::default());
    module.tables.add_local(1, None, anyref);
    let mut context = Context::new(&mut module, &config).ok().unwrap();
    assert!(context.expose_handle_error().is_ok());
    let js = items(&mut context);
    assert!(js.ends_with(
        "function addToAnyrefTable(obj) {
                    const idx = wasm.__wbindgen_anyref_table_alloc();
                    wasm.__wbg_anyref_table.set(idx, obj);
                    return idx;
                }

function handleError(exnptr, e) {
                    const idx = addToAnyrefTable(e);
                    const view = getUint32Memory();
                    view[exnptr / 4] = 1;
                    view[exnptr / 4 + 1] = idx;
                }

"
    ));
    assert_eq!(
        export_names(&module),
        vec!["memory", "__wbindgen_anyref_table_alloc", "__wbg_anyref_table"]
    );
}

#[test]
fn values_in_the_table_are_read() {
    let mut config = bundler();
    config.anyref = true;
    let mut module = module();
    let anyref = walrus::TableKind::Anyref(Default::default());
    module.tables.add_local(1, None, anyref);
    let mut context = Context::new(&mut module, &config).ok().unwrap();
    assert!(context.expose_get_array_js_value_from_wasm().is_ok());
    assert!(context.expose_pass_array_jsvalue_to_wasm().is_ok());
    let js = items(&mut context);
    assert!(js.contains("wasm.__wbindgen_drop_anyref_slice(ptr, len);"));
    assert!(js.contains("mem[ptr / 4 + i] = addToAnyrefTable(array[i]);"));
}

#[test]
fn values_on_the_stack() {
    let config = bundler();
    let mut module = module();
    let mut context = Context::new(&mut module, &config).ok().unwrap();
    context.expose_borrowed_objects();
    let js = items(&mut context);
    assert!(js.ends_with(
        "let stack_pointer = 32;

function addBorrowedObject(obj) {
                if (stack_pointer == 1) throw new Error('out of js stack');
                heap[--stack_pointer] = obj;
                return stack_pointer;
            }

"
    ));
}

#[test]
fn simple_helpers() {
    let config = bundler();
    let mut module = module();
    let mut context = Context::new(&mut module, &config).ok().unwrap();
    context.expose_does_not_exist();
    context.expose_assert_num();
    context.expose_assert_bool();
    context.expose_assert_class();
    context.expose_get_inherited_descriptor();
    assert!(context.expose_global_argument_ptr().is_ok());
    assert_eq!(
        items(&mut context),
        "function doesNotExist() {
                    throw new Error('imported function or type does not exist');
                }

function _assertNum(n) {
                if (typeof(n) !== 'number') throw new Error('expected a number argument');
            }

function _assertBoolean(n) {
                if (typeof(n) !== 'boolean') {
                    throw new Error('expected a boolean argument');
                }
            }

function _assertClass(instance, klass) {
                if (!(instance instanceof klass)) {
                    throw new Error(`expected instance of ${klass.name}`);
                }
                return instance.ptr;
            }

function GetOwnOrInheritedPropertyDescriptor(obj, id) {
              while (obj) {
                let desc = Object.getOwnPropertyDescriptor(obj, id);
                if (desc) return desc;
                obj = Object.getPrototypeOf(obj);
              }
              return {}
            }

let cachedGlobalArgumentPtr = null;
            function globalArgumentPtr() {
                if (cachedGlobalArgumentPtr === null) {
                    cachedGlobalArgumentPtr = wasm.__wbindgen_global_argument_ptr();
                }
                return cachedGlobalArgumentPtr;
            }

"
    );
}

#[test]
fn descriptions_of_values() {
    let config = bundler();
    let mut module = module();
    let mut context = Context::new(&mut module, &config).ok().unwrap();
    context.expose_debug_string();
    let js = items(&mut context);
    assert!(js.starts_with("function debugString(val) {\n                // primitive types\n"));
    assert!(js.contains(r"const builtInMatches = /\[object ([^\]]+)\]/.exec(toString.call(val));"));
    assert!(js.contains(r#"return `"${val}"`;"#));
    assert!(js.contains(r"return `${val.name}: ${val.message}\n${val.stack}`;"));
    assert!(js.ends_with("return className;\n            }\n\n"));
}

#[test]
fn missing_internal_exports_are_reported_once() {
    let config = bundler();
    let mut module = walrus::Module::default();
    let mut context = Context::new(&mut module, &config).ok().unwrap();
    let error = context.expose_pass_array8_to_wasm().err().unwrap();
    assert!(matches!(&error, GlueError::MissingInternalExport(name) if name == "__wbindgen_malloc"));
    assert_eq!(
        error.message(),
        "the exported function `__wbindgen_malloc` is required to generate bindings \
         but it was not found in the wasm file, perhaps the `std` feature of the \
         `wasm-bindgen` crate needs to be enabled?"
    );
    assert!(context.require_internal_export("__wbindgen_malloc").is_ok());
}

#[test]
fn tables_of_functions() {
    let config = bundler();
    let mut module = walrus::Module::default();
    {
        let mut context = Context::new(&mut module, &config).ok().unwrap();
        let error = context.export_function_table().err().unwrap();
        assert!(matches!(error, GlueError::NoFunctionTable));
        assert_eq!(error.message(), "no function table found in module");
    }
    let functions = walrus::TableKind::Function(walrus::FunctionTable::default());
    module.tables.add_local(1, None, functions);
    {
        let mut context = Context::new(&mut module, &config).ok().unwrap();
        assert!(context.export_function_table().is_ok());
        assert!(context.export_function_table().is_ok());
    }
    assert_eq!(export_names(&module), vec!["__wbg_function_table"]);
    let functions = walrus::TableKind::Function(walrus::FunctionTable::default());
    module.tables.add_local(1, None, functions);
    let mut context = Context::new(&mut module, &config).ok().unwrap();
    let error = context.export_function_table().err().unwrap();
    assert!(matches!(error, GlueError::MultipleFunctionTables));
    assert_eq!(error.message(), "module contains more than one function table");
}

#[test]
fn all_helpers_live_together() {
    let mut config = bundler();
    config.encode_into = EncodeInto::Never;
    let mut module = module();
    let mut context = Context::new(&mut module, &config).ok().unwrap();
    for _ in 0..2 {
        assert!(context.expose_get_array_js_value_from_wasm().is_ok());
        assert!(context.expose_pass_array_jsvalue_to_wasm().is_ok());
        assert!(context.expose_pass_string_to_wasm().is_ok());
        assert!(context.expose_get_string_from_wasm().is_ok());
        assert!(context.expose_handle_error().is_ok());
        assert!(context.expose_global_argument_ptr().is_ok());
        context.expose_does_not_exist();
        context.expose_assert_num();
        context.expose_assert_bool();
        context.expose_assert_class();
        context.expose_borrowed_objects();
        context.expose_get_inherited_descriptor();
        context.expose_int64_cvt_shim();
        context.expose_uint64_cvt_shim();
        context.expose_is_like_none();
        context.expose_debug_string();
    }
    let js = items(&mut context);
    for definition in [
        "function getArrayJsValueFromWasm(",
        "function passArrayJsValueToWasm(",
        "function passStringToWasm(",
        "function getStringFromWasm(",
        "function handleError(",
        "function globalArgumentPtr(",
        "function doesNotExist(",
        "function _assertNum(",
        "function _assertBoolean(",
        "function _assertClass(",
        "function addBorrowedObject(",
        "function GetOwnOrInheritedPropertyDescriptor(",
        "function isLikeNone(",
        "function debugString(",
        "function takeObject(",
        "function getObject(",
        "function dropObject(",
        "function addHeapObject(",
        "function getUint8Memory(",
        "function getUint32Memory(",
        "const heap = ",
        "let heap_next = ",
        "let stack_pointer = ",
        "let WASM_VECTOR_LEN = ",
        "let cachedTextEncoder = ",
        "let cachedTextDecoder = ",
        "const u32CvtShim = ",
        "const int64CvtShim = ",
        "const uint64CvtShim = ",
    ] {
        assert_eq!(js.matches(definition).count(), 1, "{}", definition);
    }
    assert!(js.find("const heap = ").unwrap() < js.find("let heap_next = ").unwrap());
}

#[test]
fn strings_need_two_internal_exports() {
    for encode_into in [EncodeInto::Never, EncodeInto::Always, EncodeInto::Test] {
        let mut config = bundler();
        config.encode_into = encode_into;
        let mut module = walrus::Module::default();
        let memory = module.memories.add_local(false, 1, None);
        module.exports.add("__wbindgen_malloc", memory);
        let mut context = Context::new(&mut module, &config).ok().unwrap();
        let error = context.expose_pass_string_to_wasm().err().unwrap();
        assert!(matches!(
            &error,
            GlueError::MissingInternalExport(name) if name == "__wbindgen_realloc"
        ));
    }
}

#[test]
fn internal_exports_that_helpers_call_stay() {
    for anyref in [false, true] {
        for node in [false, true] {
            for encode_into in [EncodeInto::Never, EncodeInto::Always, EncodeInto::Test] {
                let mut config = if node {
                    options(OutputMode::Node { experimental_modules: false })
                } else {
                    bundler()
                };
                config.anyref = anyref;
                config.encode_into = encode_into;
                let mut module = module();
                let kind = walrus::TableKind::Anyref(Default::default());
                module.tables.add_local(1, None, kind);
                let mut context = Context::new(&mut module, &config).ok().unwrap();
                assert!(context.expose_pass_string_to_wasm().is_ok());
                assert!(context.expose_get_array_js_value_from_wasm().is_ok());
                assert!(context.expose_pass_array_jsvalue_to_wasm().is_ok());
                assert!(context.expose_pass_array16_to_wasm().is_ok());
                assert!(context.expose_handle_error().is_ok());
                assert!(context.expose_global_argument_ptr().is_ok());
                context.expose_debug_string();
                let (js, _) = context.finalize("demo").ok().unwrap();
                let names = export_names(&module);
                let mut rest = js.as_str();
                let mut calls = 0;
                while let Some(at) = rest.find(".__wbi") {
                    rest = &rest[at + 1..];
                    let end = rest.find('(').unwrap();
                    assert!(names.iter().any(|name| *name == rest[..end]), "{}", &rest[..end]);
                    calls += 1;
                }
                assert!(calls >= 4);
            }
        }
    }
}

#[test]
fn a_getter_is_written_once_for_each_kind() {
    let config = bundler();
    let mut module = module();
    let mut context = Context::new(&mut module, &config).ok().unwrap();
    let kinds = [
        VectorKind::String,
        VectorKind::I8,
        VectorKind::U8,
        VectorKind::ClampedU8,
        VectorKind::I16,
        VectorKind::U16,
        VectorKind::I32,
        VectorKind::U32,
        VectorKind::I64,
        VectorKind::U64,
        VectorKind::F32,
        VectorKind::F64,
        VectorKind::Anyref,
    ];
    let mut names: Vec<String> = Vec::new();
    for _ in 0..2 {
        for kind in kinds {
            names.push(context.expose_get_vector_from_wasm(kind).ok().unwrap().to_string());
        }
    }
    let again = names.split_off(kinds.len());
    assert_eq!(names, again);
    let js = items(&mut context);
    for name in &names {
        assert_eq!(js.matches(&format!("function {}(", name)).count(), 1);
        assert_eq!(names.iter().filter(|other| *other == name).count(), 1);
    }
}

#[test]
fn only_what_is_asked_for_is_exposed() {
    let config = bundler();
    let mut module = module();
    let mut context = Context::new(&mut module, &config).ok().unwrap();
    assert!(context.expose_get_string_from_wasm().is_ok());
    let js = items(&mut context);
    assert_eq!(js.matches("function ").count(), 2);
    assert!(js.contains("function getUint8Memory("));
    assert!(js.contains("function getStringFromWasm("));
    assert!(js.contains("let cachedTextDecoder = "));
}

#[test]
fn values_need_a_table() {
    let mut config = bundler();
    config.anyref = true;
    let mut without = module();
    let context = Context::new(&mut without, &config).ok().unwrap();
    assert!(!context.has_anyref_table());
    assert!(!context.can_add_values());
    assert!(!context.can_pass_values());
    assert!(!context.can_read_values());
    assert!(!context.can_handle_errors());
    let mut with = module();
    let anyref = walrus::TableKind::Anyref(Default::default());
    let table = with.tables.add_local(1, None, anyref);
    let mut context = Context::new(&mut with, &config).ok().unwrap();
    assert!(context.can_add_values() && context.can_pass_values());
    assert!(context.can_read_values() && context.can_handle_errors());
    assert!(context.expose_handle_error().is_ok());
    context.module.tables.delete(table);
    assert!(context.has_anyref_table());
    assert!(context.can_handle_errors() && context.can_pass_values());
    assert!(context.expose_handle_error().is_ok());
    assert!(context.expose_pass_array_jsvalue_to_wasm().is_ok());
    let config = bundler();
    let mut without = module();
    let context = Context::new(&mut without, &config).ok().unwrap();
    assert!(context.can_pass_values() && context.can_read_values() && context.can_handle_errors());
}

#[test]
fn an_internal_export_is_missed_before_the_table() {
    let mut config = bundler();
    config.anyref = true;
    let mut module = walrus::Module::default();
    let mut context = Context::new(&mut module, &config).ok().unwrap();
    assert!(context.can_pass_values());
    let error = context.pass_to_wasm_function(VectorKind::Anyref).err().unwrap();
    assert!(matches!(
        &error,
        GlueError::MissingInternalExport(name) if name == "__wbindgen_malloc"
    ));
    assert!(context.can_pass_values());
    assert!(context.pass_to_wasm_function(VectorKind::Anyref).is_ok());
    assert!(!context.can_handle_errors());
}

#[test]
fn heads_of_readers_stand_once() {
    for node in [false, true] {
        let config = if node {
            options(OutputMode::Node { experimental_modules: false })
        } else {
            bundler()
        };
        let mut module = module();
        let mut context = Context::new(&mut module, &config).ok().unwrap();
        let kinds = [VectorKind::String, VectorKind::U8, VectorKind::F64, VectorKind::Anyref];
        for kind in kinds {
            assert!(context.pass_to_wasm_function(kind).is_ok());
        }
        context.expose_debug_string();
        for _ in 0..3 {
            for kind in kinds {
                assert!(context.expose_get_vector_from_wasm(kind).is_ok());
            }
        }
        assert!(context.expose_handle_error().is_ok());
        let (js, _) = context.finalize("demo").ok().unwrap();
        for name in [
            "getStringFromWasm",
            "getArrayU8FromWasm",
            "getArrayF64FromWasm",
            "getArrayJsValueFromWasm",
        ] {
            assert_eq!(js.matches(&format!("function {}(ptr, len) {{", name)).count(), 1);
        }
        assert_eq!(js.matches("(ptr, len) {").count(), 4);
    }
}
