//! The end of a run.
use wasm_glue::config::{Bindgen, EncodeInto, OutputMode};
use wasm_glue::context::Context;
use wasm_glue::error::GlueError;

fn options(mode: OutputMode) -> Bindgen {
    Bindgen {
        mode,
        debug: false,
        emit_start: true,
        weak_refs: false,
        anyref: false,
        encode_into: EncodeInto::Test,
    }
}

fn export_names(module: &walrus::Module) -> Vec<String> {
    module.exports.iter().map(|export| export.name.clone()).collect()
}

/// A module whose start function is imported.
fn starting_module() -> walrus::Module {
    let mut module = walrus::Module::default();
    let memory = module.memories.add_local(false, 1, None);
    module.exports.add("memory", memory);
    let ty = module.types.add(&[], &[]);
    let function = module.add_import_func("env", "start", ty);
    module.start = Some(function);
    module
}

#[test]
fn several_memories_are_refused() {
    let config = options(OutputMode::Web);
    let mut module = walrus::Module::default();
    module.memories.add_local(false, 1, None);
    module.memories.add_local(false, 1, None);
    let error = Context::new(&mut module, &config).err().unwrap();
    assert!(matches!(error, GlueError::MultipleMemories));
    assert_eq!(error.message(), "multiple memories currently not supported");
}

#[test]
fn a_module_without_memory_gets_one() {
    let config = options(OutputMode::Bundler { browser_only: false });
    let mut module = walrus::Module::default();
    {
        let context = Context::new(&mut module, &config).ok().unwrap();
        let memory = context.module.memories.iter().next().unwrap();
        assert_eq!((memory.initial, memory.maximum, memory.shared), (1, None, false));
        assert_eq!(context.memory(), "wasm.memory");
    }
    let mut context = Context::new(&mut module, &config).ok().unwrap();
    assert!(context.finalize("demo").is_ok());
    assert_eq!(module.memories.iter().count(), 0);
}

#[test]
fn memory_that_nothing_uses() {
    for mode in [OutputMode::Web, OutputMode::NoModules { global: "g".to_string() }] {
        let config = options(mode);
        let mut module = walrus::Module::default();
        let mut context = Context::new(&mut module, &config).ok().unwrap();
        let (js, ts) = context.finalize("demo").ok().unwrap();
        assert!(js.contains("function init(module) {\n"));
        assert!(!js.contains("WebAssembly.Memory"));
        assert!(!js.contains("wasm.__wbindgen_start();"));
        assert!(!ts.contains("maybe_memory"));
        assert_eq!(module.memories.iter().count(), 0);
    }
}

#[test]
fn internal_exports_go_unless_they_are_used() {
    let config = options(OutputMode::Bundler { browser_only: false });
    let mut module = walrus::Module::default();
    let memory = module.memories.add_local(false, 1, None);
    for name in ["__wbindgen_malloc", "memory", "__wbindgen_free", "_wbindgen", "__wbindgen"] {
        module.exports.add(name, memory);
    }
    let mut context = Context::new(&mut module, &config).ok().unwrap();
    assert!(context.require_internal_export("__wbindgen_malloc").is_ok());
    assert!(context.finalize("demo").is_ok());
    assert_eq!(export_names(&module), vec!["__wbindgen_malloc", "memory", "_wbindgen"]);
}

#[test]
fn the_start_function_is_run_by_the_glue() {
    let config = options(OutputMode::Bundler { browser_only: false });
    let mut module = starting_module();
    let mut context = Context::new(&mut module, &config).ok().unwrap();
    let (js, _) = context.finalize("demo").ok().unwrap();
    assert_eq!(js, "import * as wasm from './demo_bg';\n\nwasm.__wbindgen_start();\n\n");
    assert!(module.start.is_none());
    assert_eq!(export_names(&module), vec!["memory", "__wbindgen_start"]);
}

#[test]
fn the_start_function_of_a_commonjs_module() {
    let config = options(OutputMode::Node { experimental_modules: false });
    let mut module = starting_module();
    let mut context = Context::new(&mut module, &config).ok().unwrap();
    let (js, _) = context.finalize("demo").ok().unwrap();
    assert_eq!(js, "let wasm;\n\nwasm = require('./demo_bg');\nwasm.__wbindgen_start();\n\n");
}

#[test]
fn the_start_function_is_left_alone() {
    let mut config = options(OutputMode::Node { experimental_modules: true });
    config.emit_start = false;
    let mut module = starting_module();
    let mut context = Context::new(&mut module, &config).ok().unwrap();
    let (js, _) = context.finalize("demo").ok().unwrap();
    assert_eq!(js, "import * as wasm from './demo_bg';\n\n");
    assert!(module.start.is_some());
    assert_eq!(export_names(&module), vec!["memory"]);
}

#[test]
fn a_module_for_browsers() {
    let config = options(OutputMode::Web);
    let mut module = starting_module();
    let mut context = Context::new(&mut module, &config).ok().unwrap();
    let (js, ts) = context.finalize("demo").ok().unwrap();
    assert_eq!(
        js,
        "
let wasm;

function init(module) {
                    let result;
                    const imports = {};
                    
                    if (module instanceof URL || typeof module === 'string' || module instanceof Request) {
                        
                        const response = fetch(module);
                        if (typeof WebAssembly.instantiateStreaming === 'function') {
                            result = WebAssembly.instantiateStreaming(response, imports)
                                .catch(e => {
                                    console.warn(\"`WebAssembly.instantiateStreaming` failed. Assuming this is because your server does not serve wasm with `application/wasm` MIME type. Falling back to `WebAssembly.instantiate` which is slower. Original error:\\n\", e);
                                    return response
                                        .then(r => r.arrayBuffer())
                                        .then(bytes => WebAssembly.instantiate(bytes, imports));
                                });
                        } else {
                            result = response
                                .then(r => r.arrayBuffer())
                                .then(bytes => WebAssembly.instantiate(bytes, imports));
                        }
                    } else {
                        
                        result = WebAssembly.instantiate(module, imports)
                            .then(result => {
                                if (result instanceof WebAssembly.Instance) {
                                    return { instance: result, module };
                                } else {
                                    return result;
                                }
                            });
                    }
                    return result.then(({instance, module}) => {
                        wasm = instance.exports;
                        init.__wbindgen_wasm_module = module;
                        wasm.__wbindgen_start();
                        return wasm;
                    });
                }
            
export default init;

"
    );
    assert_eq!(
        ts,
        "/* tslint:disable */

/**
* If `module_or_path` is {RequestInfo}, makes a request and
* for everything else, calls `WebAssembly.instantiate` directly.
*
* @param {RequestInfo | BufferSource | WebAssembly.Module} module_or_path
*
* @returns {Promise<any>}
*/
export default function init (module_or_path: RequestInfo | BufferSource | WebAssembly.Module): Promise<any>;
        "
    );
}

#[test]
fn a_script_with_imported_memory() {
    let config = options(OutputMode::NoModules { global: "bindings".to_string() });
    let mut module = walrus::Module::default();
    let memory = module.add_import_memory("env", "memory", true, 17, Some(16384));
    module.exports.add("again", memory);
    let mut context = Context::new(&mut module, &config).ok().unwrap();
    assert_eq!(context.memory(), "memory");
    let (js, ts) = context.finalize("demo").ok().unwrap();
    assert!(js.starts_with(
        "(function() {
const __exports = {};
let wasm;

let memory;

function init(module, maybe_memory) {
"
    ));
    assert!(js.contains(
        "memory = imports.wbg.memory = new WebAssembly.Memory({initial:17,maximum:16384,shared:true});"
    ));
    assert!(js.contains("memory = imports.wbg.memory = maybe_memory;"));
    assert!(js.ends_with("self.bindings = Object.assign(init, __exports);\n\n})();\n"));
    assert!(ts.contains("* @param {WebAssembly.Memory} maybe_memory\n"));
    assert!(ts.contains("WebAssembly.Module, maybe_memory: WebAssembly.Memory): Promise<any>;"));
    assert_eq!(module.imports.iter().next().unwrap().module, "wbg");
}

#[test]
fn the_type_of_init() {
    assert!(!Context::ts_for_init_fn(false).contains("maybe_memory"));
    assert_eq!(Context::ts_for_init_fn(true).matches("maybe_memory").count(), 2);
}

#[test]
fn what_is_exported_stays() {
    let config = options(OutputMode::Bundler { browser_only: false });
    let mut module = starting_module();
    let functions = walrus::TableKind::Function(Default::default());
    let table = module.tables.add_local(1, None, functions);
    module.exports.add("table", table);
    let functions = walrus::TableKind::Function(Default::default());
    module.tables.add_local(1, None, functions);
    let mut context = Context::new(&mut module, &config).ok().unwrap();
    assert!(context.finalize("demo").is_ok());
    assert_eq!(module.tables.iter().count(), 1);
    assert_eq!(module.memories.iter().count(), 1);
    assert_eq!(module.imports.iter().count(), 1);
}

#[test]
fn the_glue_of_a_new_run() {
    let config = options(OutputMode::Node { experimental_modules: false });
    let mut module = walrus::Module::default();
    let mut context = Context::new(&mut module, &config).ok().unwrap();
    let (js, ts) = context.finalize_js("foo", true).ok().unwrap();
    assert_eq!(js, "let wasm;\n\nwasm = require('./foo_bg');\nwasm.__wbindgen_start();\n\n");
    assert_eq!(ts, "/* tslint:disable */\n");
}

#[test]
fn init_of_a_new_run() {
    let config = options(OutputMode::Web);
    let mut module = walrus::Module::default();
    module.add_import_memory("env", "memory", true, 17, Some(16384));
    let mut context = Context::new(&mut module, &config).ok().unwrap();
    let (js, ts) = context.gen_init(false).ok().unwrap();
    assert!(js.starts_with("function init(module, maybe_memory) {\n"));
    assert!(js.contains(
        "memory = imports.wbg.memory = new WebAssembly.Memory(\
         {initial:17,maximum:16384,shared:true});"
    ));
    assert!(!js.contains("wasm.__wbindgen_start();"));
    assert!(ts.contains("maybe_memory: WebAssembly.Memory"));
    let (js, _) = context.gen_init(true).ok().unwrap();
    assert!(js.contains("wasm.__wbindgen_start();"));
    assert_eq!(module.imports.iter().next().unwrap().module, "wbg");
}

#[test]
fn init_without_imported_memory() {
    let config = options(OutputMode::Web);
    let mut module = starting_module();
    let mut context = Context::new(&mut module, &config).ok().unwrap();
    let (js, ts) = context.gen_init(false).ok().unwrap();
    assert!(js.starts_with("function init(module) {\n"));
    assert_eq!(ts, Context::ts_for_init_fn(false));
}

#[test]
fn the_start_function_is_exported_once() {
    let config = options(OutputMode::Web);
    let mut module = starting_module();
    let mut context = Context::new(&mut module, &config).ok().unwrap();
    assert!(context.start_is_there());
    assert!(context.unstart_start_function());
    assert!(context.start_is_there());
    assert!(!context.unstart_start_function());
    assert!(module.start.is_none());
    assert_eq!(export_names(&module), vec!["memory", "__wbindgen_start"]);
}

#[test]
fn a_start_function_that_is_gone() {
    let config = options(OutputMode::Web);
    let mut module = starting_module();
    let start = module.start.unwrap();
    module.funcs.delete(start);
    let context = Context::new(&mut module, &config).ok().unwrap();
    assert!(!context.start_is_there());
}

#[test]
fn what_uses_what_stays() {
    let config = options(OutputMode::Bundler { browser_only: false });
    let mut module = starting_module();
    let functions = walrus::TableKind::Function(Default::default());
    let table = module.tables.add_local(1, None, functions);
    let ty = module.types.add(&[], &[]);
    let reached = module.add_import_func("env", "reached", ty);
    module.add_import_func("env", "unreached", ty);
    let anyref = walrus::TableKind::Anyref(Default::default());
    module.tables.add_local(1, None, anyref);
    if let walrus::TableKind::Function(functions) = &mut module.tables.get_mut(table).kind {
        functions.elements.push(Some(reached));
    }
    module.exports.add("table", table);
    let mut context = Context::new(&mut module, &config).ok().unwrap();
    assert!(context.finalize("demo").is_ok());
    let imports: Vec<&str> = module.imports.iter().map(|import| import.name.as_str()).collect();
    assert_eq!(imports, vec!["start", "reached"]);
    assert_eq!(module.tables.iter().count(), 1);
    assert_eq!(module.memories.iter().count(), 1);
}

/// A module with one imported function, and that function.
fn importing_module() -> (walrus::Module, walrus::FunctionId) {
    let mut module = walrus::Module::default();
    let ty = module.types.add(&[], &[]);
    let function = module.add_import_func("env", "f", ty);
    (module, function)
}

#[test]
fn a_start_function_of_another_module() {
    let config = options(OutputMode::Web);
    let (mut module, own) = importing_module();
    let (_other, foreign) = importing_module();
    assert_eq!(own.index(), foreign.index());
    module.start = Some(foreign);
    let context = Context::new(&mut module, &config).ok().unwrap();
    assert!(!context.start_is_there());
    context.module.start = Some(own);
    assert!(context.start_is_there());
}

#[test]
fn a_memory_from_an_import_of_another_module() {
    let config = options(OutputMode::Web);
    let (mut module, _) = importing_module();
    let (other, _) = importing_module();
    let import = other.imports.iter().next().unwrap().id();
    let memory = module.memories.add_local(false, 1, None);
    module.memories.get_mut(memory).import = Some(import);
    let mut context = Context::new(&mut module, &config).ok().unwrap();
    assert_eq!(context.memory(), "memory");
    let error = context.gen_init(false).err().unwrap();
    assert!(matches!(error, GlueError::UnusedImport));
    assert_eq!(module.imports.iter().next().unwrap().module, "env");
}
