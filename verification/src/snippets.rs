//! The JavaScript and TypeScript texts that the glue is made of.
//!
//! Where a text has numbered pieces, a value goes between each two of them.
use vstd::prelude::*;

verus! {

/// The first slots of the heap are a stack.
pub const INITIAL_HEAP_OFFSET: usize = 32;

/// The values in the slots behind the stack, which are never freed.
pub const INITIAL_HEAP_VALUES: &'static str = "undefined, null, true, false";

/// How many values those are.
pub const INITIAL_HEAP_VALUES_LEN: usize = 4;

/// A function that stands for an import that is not there.
pub const DOES_NOT_EXIST: &'static str = "
                function doesNotExist() {
                    throw new Error('imported function or type does not exist');
                }
            ";

/// Frees a slot of the heap, unless it is reserved.
pub const DROP_REF_0: &'static str = "
            function dropObject(idx) {
                if (idx < ";

pub const DROP_REF_1: &'static str = ") return;
                heap[idx] = heap_next;
                heap_next = idx;
            }
            ";

/// The heap: an array that holds the JavaScript values that the module knows by index.
pub const HEAP_0: &'static str = "const heap = new Array(";

pub const HEAP_1: &'static str = ");";

pub const HEAP_FILL: &'static str = "heap.fill(undefined);";

pub const HEAP_PUSH_0: &'static str = "heap.push(";

pub const HEAP_PUSH_1: &'static str = ");";

/// The first free slot of the heap.
pub const HEAP_NEXT: &'static str = "let heap_next = heap.length;";

/// Reads a slot of the heap.
pub const GET_OBJECT: &'static str = "function getObject(idx) { return heap[idx]; }";

/// Throws unless its argument is a number.
pub const ASSERT_NUM: &'static str = "
            function _assertNum(n) {
                if (typeof(n) !== 'number') throw new Error('expected a number argument');
            }
            ";

/// Throws unless its argument is a boolean.
pub const ASSERT_BOOL: &'static str = "
            function _assertBoolean(n) {
                if (typeof(n) !== 'boolean') {
                    throw new Error('expected a boolean argument');
                }
            }
            ";

/// The length of the slice that was passed last.
pub const WASM_VECTOR_LEN: &'static str = "let WASM_VECTOR_LEN = 0;";

/// Throws unless the argument is a string.
pub const PASS_STRING_CHECK: &'static str = "
                if (typeof(arg) !== 'string') throw new Error('expected a string argument');
            ";

/// Passes a string, on Node.js.
pub const PASS_STRING_NODE_0: &'static str = "
                    function passStringToWasm(arg) {
                        ";

pub const PASS_STRING_NODE_1: &'static str = "
                        const size = Buffer.byteLength(arg);
                        const ptr = wasm.__wbindgen_malloc(size);
                        getNodeBufferMemory().write(arg, ptr, size);
                        WASM_VECTOR_LEN = size;
                        return ptr;
                    }
                ";

/// Writes the characters of a string up to the first that is not ASCII.
pub const START_ENCODING_0: &'static str = "
                ";

pub const START_ENCODING_1: &'static str = "
                let size = arg.length;
                let ptr = wasm.__wbindgen_malloc(size);
                let offset = 0;
                {
                    const mem = getUint8Memory();
                    for (; offset < arg.length; offset++) {
                        const code = arg.charCodeAt(offset);
                        if (code > 0x7F) break;
                        mem[ptr + offset] = code;
                    }
                }
            ";

/// Writes the rest of a string with `TextEncoder.encode`.
pub const USE_ENCODE_0: &'static str = "
                ";

pub const USE_ENCODE_1: &'static str = "
                if (offset !== arg.length) {
                    const buf = cachedTextEncoder.encode(arg.slice(offset));
                    ptr = wasm.__wbindgen_realloc(ptr, size, size = offset + buf.length);
                    getUint8Memory().set(buf, ptr + offset);
                    offset += buf.length;
                }
                WASM_VECTOR_LEN = offset;
                return ptr;
            ";

/// Writes the rest of a string with `TextEncoder.encodeInto`.
pub const USE_ENCODE_INTO_0: &'static str = "
                ";

pub const USE_ENCODE_INTO_1: &'static str = "
                if (offset !== arg.length) {
                    arg = arg.slice(offset);
                    ptr = wasm.__wbindgen_realloc(ptr, size, size = offset + arg.length * 3);
                    const view = getUint8Memory().subarray(ptr + offset, ptr + size);
                    const ret = cachedTextEncoder.encodeInto(arg, view);
                    ";

pub const USE_ENCODE_INTO_2: &'static str = "
                    offset += ret.written;
                }
                WASM_VECTOR_LEN = offset;
                return ptr;
            ";

/// Throws unless the whole string was written.
pub const ENCODE_INTO_CHECK: &'static str = "if (ret.read != arg.length) throw new Error('failed to pass whole string');";

/// Passes a string.
pub const PASS_STRING_0: &'static str = "function passStringToWasm(arg) { ";

pub const PASS_STRING_1: &'static str = " }";

/// Passes a string with `TextEncoder.encodeInto` where the environment has it.
pub const PASS_STRING_TEST_0: &'static str = "
                        let passStringToWasm;
                        if (typeof cachedTextEncoder.encodeInto === 'function') {
                            passStringToWasm = function(arg) { ";

pub const PASS_STRING_TEST_1: &'static str = " };
                        } else {
                            passStringToWasm = function(arg) { ";

pub const PASS_STRING_TEST_2: &'static str = " };
                        }
                    ";

/// Passes an array of JavaScript values through the table of the module.
pub const PASS_ARRAY_JSVALUE_ANYREF: &'static str = "
                function passArrayJsValueToWasm(array) {
                    const ptr = wasm.__wbindgen_malloc(array.length * 4);
                    const mem = getUint32Memory();
                    for (let i = 0; i < array.length; i++) {
                        mem[ptr / 4 + i] = addToAnyrefTable(array[i]);
                    }
                    WASM_VECTOR_LEN = array.length;
                    return ptr;
                }
            ";

/// Passes an array of JavaScript values through the heap.
pub const PASS_ARRAY_JSVALUE_HEAP: &'static str = "
                function passArrayJsValueToWasm(array) {
                    const ptr = wasm.__wbindgen_malloc(array.length * 4);
                    const mem = getUint32Memory();
                    for (let i = 0; i < array.length; i++) {
                        mem[ptr / 4 + i] = addHeapObject(array[i]);
                    }
                    WASM_VECTOR_LEN = array.length;
                    return ptr;
                }

            ";

/// Passes a typed array.
pub const PASS_ARRAY_0: &'static str = "
            function ";

pub const PASS_ARRAY_1: &'static str = "(arg) {
                const ptr = wasm.__wbindgen_malloc(arg.length * ";

pub const PASS_ARRAY_2: &'static str = ");
                ";

pub const PASS_ARRAY_3: &'static str = "().set(arg, ptr / ";

pub const PASS_ARRAY_4: &'static str = ");
                WASM_VECTOR_LEN = arg.length;
                return ptr;
            }
            ";

/// A `TextEncoder` or a `TextDecoder`, imported.
pub const PROCESSOR_NODE_0: &'static str = "let cached";

pub const PROCESSOR_NODE_1: &'static str = " = new ";

pub const PROCESSOR_NODE_2: &'static str = "('utf-8');";

/// Finds `TextEncoder` or `TextDecoder` in a browser or in Node.js.
pub const PROCESSOR_LOOKUP_0: &'static str = "
                    const l";

pub const PROCESSOR_LOOKUP_1: &'static str = " = typeof ";

pub const PROCESSOR_LOOKUP_2: &'static str = " === 'undefined' ? \
                        require('util').";

pub const PROCESSOR_LOOKUP_3: &'static str = " : ";

pub const PROCESSOR_LOOKUP_4: &'static str = ";\
                ";

/// A `TextEncoder` or a `TextDecoder` that was looked up.
pub const PROCESSOR_FOUND_0: &'static str = "let cached";

pub const PROCESSOR_FOUND_1: &'static str = " = new l";

pub const PROCESSOR_FOUND_2: &'static str = "('utf-8');";

/// A `TextEncoder` or a `TextDecoder`, in a browser.
pub const PROCESSOR_BROWSER_0: &'static str = "let cached";

pub const PROCESSOR_BROWSER_1: &'static str = " = new ";

pub const PROCESSOR_BROWSER_2: &'static str = "('utf-8');";

/// Reads a string.
pub const GET_STRING_0: &'static str = "
            function getStringFromWasm(ptr, len) {
                return cachedTextDecoder.decode(getUint8Memory().";

pub const GET_STRING_1: &'static str = "(ptr, ptr + len));
            }
        ";

/// Reads an array of JavaScript values from the table of the module.
pub const GET_ARRAY_JSVALUE_ANYREF: &'static str = "
                function getArrayJsValueFromWasm(ptr, len) {
                    const mem = getUint32Memory();
                    const slice = mem.subarray(ptr / 4, ptr / 4 + len);
                    const result = [];
                    for (let i = 0; i < slice.length; i++) {
                        result.push(wasm.__wbg_anyref_table.get(slice[i]));
                    }
                    wasm.__wbindgen_drop_anyref_slice(ptr, len);
                    return result;
                }
                ";

/// Reads an array of JavaScript values from the heap.
pub const GET_ARRAY_JSVALUE_HEAP: &'static str = "
                function getArrayJsValueFromWasm(ptr, len) {
                    const mem = getUint32Memory();
                    const slice = mem.subarray(ptr / 4, ptr / 4 + len);
                    const result = [];
                    for (let i = 0; i < slice.length; i++) {
                        result.push(takeObject(slice[i]));
                    }
                    return result;
                }
                ";

/// Reads a typed array.
pub const ARRAYGET_0: &'static str = "
            function ";

pub const ARRAYGET_1: &'static str = "(ptr, len) {
                return ";

pub const ARRAYGET_2: &'static str = "().subarray(ptr / ";

pub const ARRAYGET_3: &'static str = ", ptr / ";

pub const ARRAYGET_4: &'static str = " + len);
            }
            ";

/// A typed view of the memory.
pub const MEMVIEW_0: &'static str = "
            let cache";

pub const MEMVIEW_1: &'static str = " = null;
            function ";

pub const MEMVIEW_2: &'static str = "() {
                if (cache";

pub const MEMVIEW_3: &'static str = " === null || cache";

pub const MEMVIEW_4: &'static str = ".buffer !== ";

pub const MEMVIEW_5: &'static str = ".buffer) {
                    cache";

pub const MEMVIEW_6: &'static str = " = ";

pub const MEMVIEW_7: &'static str = "(";

pub const MEMVIEW_8: &'static str = ".buffer);
                }
                return cache";

pub const MEMVIEW_9: &'static str = ";
            }
            ";

/// Throws unless its argument is an object of a class.
pub const ASSERT_CLASS: &'static str = "
            function _assertClass(instance, klass) {
                if (!(instance instanceof klass)) {
                    throw new Error(`expected instance of ${klass.name}`);
                }
                return instance.ptr;
            }
            ";

/// The top of the stack, which grows downwards at the start of the heap.
pub const STACK_POINTER_0: &'static str = "let stack_pointer = ";

pub const STACK_POINTER_1: &'static str = ";";

/// Puts a value on the stack.
pub const BORROWED_OBJECTS: &'static str = "
            function addBorrowedObject(obj) {
                if (stack_pointer == 1) throw new Error('out of js stack');
                heap[--stack_pointer] = obj;
                return stack_pointer;
            }
            ";

/// Reads a slot of the heap and frees it.
pub const TAKE_OBJECT: &'static str = "
            function takeObject(idx) {
                const ret = getObject(idx);
                dropObject(idx);
                return ret;
            }
            ";

/// Throws where the list of free slots is broken.
pub const HEAP_CHECK: &'static str = "
                if (typeof(heap_next) !== 'number') throw new Error('corrupt heap');
                ";

/// Puts a value into a free slot of the heap.
pub const ADD_HEAP_OBJECT_0: &'static str = "
            function addHeapObject(obj) {
                if (heap_next === heap.length) heap.push(heap.length + 1);
                const idx = heap_next;
                heap_next = heap[idx];
                ";

pub const ADD_HEAP_OBJECT_1: &'static str = "
                heap[idx] = obj;
                return idx;
            }
            ";

/// Hands an exception to the module through its table.
pub const HANDLE_ERROR_ANYREF: &'static str = "
                function handleError(exnptr, e) {
                    const idx = addToAnyrefTable(e);
                    const view = getUint32Memory();
                    view[exnptr / 4] = 1;
                    view[exnptr / 4 + 1] = idx;
                }
                ";

/// Hands an exception to the module through the heap.
pub const HANDLE_ERROR_HEAP: &'static str = "
                function handleError(exnptr, e) {
                    const view = getUint32Memory();
                    view[exnptr / 4] = 1;
                    view[exnptr / 4 + 1] = addHeapObject(e);
                }
                ";

/// Where the module has room for arguments.
pub const GLOBAL_ARGUMENT_PTR: &'static str = "
            let cachedGlobalArgumentPtr = null;
            function globalArgumentPtr() {
                if (cachedGlobalArgumentPtr === null) {
                    cachedGlobalArgumentPtr = wasm.__wbindgen_global_argument_ptr();
                }
                return cachedGlobalArgumentPtr;
            }
            ";

/// Finds the descriptor of a property on an object or its prototypes.
pub const GET_INHERITED_DESCRIPTOR: &'static str = "
            function GetOwnOrInheritedPropertyDescriptor(obj, id) {
              while (obj) {
                let desc = Object.getOwnPropertyDescriptor(obj, id);
                if (desc) return desc;
                obj = Object.getPrototypeOf(obj);
              }
              return {}
            }
            ";

/// Room for two 32-bit integers.
pub const U32_CVT_SHIM_0: &'static str = "const ";

pub const U32_CVT_SHIM_1: &'static str = " = new Uint32Array(2);";

/// The same room as a signed 64-bit integer.
pub const INT64_CVT_SHIM_0: &'static str = "const ";

pub const INT64_CVT_SHIM_1: &'static str = " = new BigInt64Array(";

pub const INT64_CVT_SHIM_2: &'static str = ".buffer);";

/// The same room as an unsigned 64-bit integer.
pub const UINT64_CVT_SHIM_0: &'static str = "const ";

pub const UINT64_CVT_SHIM_1: &'static str = " = new BigUint64Array(";

pub const UINT64_CVT_SHIM_2: &'static str = ".buffer);";

/// Whether a value is `undefined` or `null`.
pub const IS_LIKE_NONE: &'static str = "
            function isLikeNone(x) {
                return x === undefined || x === null;
            }
        ";

/// Puts a value into the table of the module.
pub const ADD_TO_ANYREF_TABLE: &'static str = "
                function addToAnyrefTable(obj) {
                    const idx = wasm.__wbindgen_anyref_table_alloc();
                    wasm.__wbg_anyref_table.set(idx, obj);
                    return idx;
                }
            ";

/// Describes a value.
pub const DEBUG_STRING: &'static str = "
           function debugString(val) {
                // primitive types
                const type = typeof val;
                if (type == 'number' || type == 'boolean' || val == null) {
                    return  `${val}`;
                }
                if (type == 'string') {
                    return `\"${val}\"`;
                }
                if (type == 'symbol') {
                    const description = val.description;
                    if (description == null) {
                        return 'Symbol';
                    } else {
                        return `Symbol(${description})`;
                    }
                }
                if (type == 'function') {
                    const name = val.name;
                    if (typeof name == 'string' && name.length > 0) {
                        return `Function(${name})`;
                    } else {
                        return 'Function';
                    }
                }
                // objects
                if (Array.isArray(val)) {
                    const length = val.length;
                    let debug = '[';
                    if (length > 0) {
                        debug += debugString(val[0]);
                    }
                    for(let i = 1; i < length; i++) {
                        debug += ', ' + debugString(val[i]);
                    }
                    debug += ']';
                    return debug;
                }
                // Test for built-in
                const builtInMatches = /\\[object ([^\\]]+)\\]/.exec(toString.call(val));
                let className;
                if (builtInMatches.length > 1) {
                    className = builtInMatches[1];
                } else {
                    // Failed to match the standard '[object ClassName]'
                    return toString.call(val);
                }
                if (className == 'Object') {
                    // we're a user defined class or Object
                    // JSON.stringify avoids problems with cycles, and is generally much
                    // easier than looping through ownProperties of `val`.
                    try {
                        return 'Object(' + JSON.stringify(val) + ')';
                    } catch (_) {
                        return 'Object';
                    }
                }
                // errors
                if (val instanceof Error) {
                    return `${val.name}: ${val.message}\\n${val.stack}`;
                }
                // TODO we could test for more things here, like `Set`s and `Map`s.
                return className;
            }
        ";

/// The type of `init`.
pub const TS_INIT_0: &'static str = "\n\
            /**\n\
            * If `module_or_path` is {RequestInfo}, makes a request and\n\
            * for everything else, calls `WebAssembly.instantiate` directly.\n\
            *\n\
            * @param {RequestInfo | BufferSource | WebAssembly.Module} module_or_path\n\
            ";

pub const TS_INIT_1: &'static str = "\
            *\n\
            * @returns {Promise<any>}\n\
            */\n\
            export default function init \
                (module_or_path: RequestInfo | BufferSource | WebAssembly.Module";

pub const TS_INIT_2: &'static str = "): Promise<any>;
        ";

/// The documentation of the memory that `init` takes.
pub const TS_INIT_MEMORY_DOC: &'static str = "* @param {WebAssembly.Memory} maybe_memory\n";

/// The type of the memory that `init` takes.
pub const TS_INIT_MEMORY_PARAM: &'static str = ", maybe_memory: WebAssembly.Memory";

/// `init`: instantiates the module.
pub const INIT_0: &'static str = "\
                function init(module";

pub const INIT_1: &'static str = ") {
                    let result;
                    const imports = {};
                    ";

pub const INIT_2: &'static str = "
                    if (module instanceof URL || typeof module === 'string' || module instanceof Request) {
                        ";

pub const INIT_3: &'static str = "
                        const response = fetch(module);
                        if (typeof WebAssembly.instantiateStreaming === 'function') {
                            result = WebAssembly.instantiateStreaming(response, imports)
                                .catch(e => {
                                    console.warn(\"`WebAssembly.instantiateStreaming` failed. Assuming this is \
                                                    because your server does not serve wasm with \
                                                    `application/wasm` MIME type. Falling back to \
                                                    `WebAssembly.instantiate` which is slower. Original \
                                                    error:\\n\", e);
                                    return response
                                        .then(r => r.arrayBuffer())
                                        .then(bytes => WebAssembly.instantiate(bytes, imports));
                                });
                        } else {
                            result = response
                                .then(r => r.arrayBuffer())
                                .then(bytes => WebAssembly.instantiate(bytes, imports));
                        }
                    } else {
                        ";

pub const INIT_4: &'static str = "
                        result = WebAssembly.instantiate(module, imports)
                            .then(result => {
                                if (result instanceof WebAssembly.Instance) {
                                    return { instance: result, module };
                                } else {
                                    return result;
                                }
                            });
                    }
                    return result.then(({instance, module}) => {
                        wasm = instance.exports;
                        init.__wbindgen_wasm_module = module;
                        ";

pub const INIT_5: &'static str = "
                        return wasm;
                    });
                }
            ";

/// A constructor that throws.
pub const CLASS_NO_CONSTRUCTOR: &'static str = "
                    constructor() {
                        throw new Error('cannot invoke `new` directly');
                    }
                ";

/// Makes an object of a pointer.
pub const CLASS_WRAP_0: &'static str = "
                static __wrap(ptr) {
                    const obj = Object.create(";

pub const CLASS_WRAP_1: &'static str = ".prototype);
                    obj.ptr = ptr;
                    ";

pub const CLASS_WRAP_2: &'static str = "
                    return obj;
                }
                ";

/// Has an object freed when JavaScript drops it.
pub const CLASS_WRAP_REGISTER: &'static str = "FinalizationGroup.register(obj, obj.ptr, obj.ptr);";

/// Frees what a pointer points to.
pub const CLASS_FREE_FUNCTION_0: &'static str = "
            function free";

pub const CLASS_FREE_FUNCTION_1: &'static str = "(ptr) {
                wasm.";

pub const CLASS_FREE_FUNCTION_2: &'static str = "(ptr);
            }
            ";

/// Frees what dropped objects point to.
pub const CLASS_FINALIZATION_0: &'static str = "
                const ";

pub const CLASS_FINALIZATION_1: &'static str = "FinalizationGroup = new FinalizationGroup((items) => {
                    for (const ptr of items) {
                        free";

pub const CLASS_FINALIZATION_2: &'static str = "(ptr);
                    }
                });
                ";

/// Frees an object.
pub const CLASS_FREE_0: &'static str = "
            free() {
                const ptr = this.ptr;
                this.ptr = 0;
                ";

pub const CLASS_FREE_1: &'static str = "
                free";

pub const CLASS_FREE_2: &'static str = "(ptr);
            }
            ";

/// Has an object no longer freed when JavaScript drops it.
pub const CLASS_FREE_UNREGISTER: &'static str = "FinalizationGroup.unregister(ptr);";

} // verus!
