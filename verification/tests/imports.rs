//! Imported JavaScript items, and the imports of the WebAssembly module.
use wasm_glue::bindings::{AuxExport, AuxExportKind, AuxImport, JsImport, JsImportName, WasmBindgenAux};
use wasm_glue::config::{Bindgen, EncodeInto, OutputMode};
use wasm_glue::context::Context;
use wasm_glue::error::GlueError;
use wasm_glue::generate::{Action, ExportGlue};

fn options(mode: OutputMode) -> Bindgen {
    Bindgen {
        mode,
        debug: false,
        emit_start: false,
        weak_refs: false,
        anyref: false,
        encode_into: EncodeInto::Test,
    }
}

fn bundler() -> Bindgen {
    options(OutputMode::Bundler { browser_only: false })
}

fn item(name: JsImportName, fields: &[&str]) -> JsImport {
    JsImport { name, fields: fields.iter().map(|field| field.to_string()).collect() }
}

fn of_module(module: &str, name: &str) -> JsImport {
    item(JsImportName::Module { module: module.to_string(), name: name.to_string() }, &[])
}

fn global(name: &str) -> JsImport {
    item(JsImportName::Global { name: name.to_string() }, &[])
}

#[test]
fn imports_of_an_es_module() {
    let config = bundler();
    let mut module = walrus::Module::default();
    let mut context = Context::new(&mut module, &config).ok().unwrap();
    assert_eq!(context.import_name(&of_module("b", "f")).ok().unwrap(), "f");
    assert_eq!(context.import_name(&of_module("a", "f")).ok().unwrap(), "f2");
    assert_eq!(context.import_name(&of_module("a", "default")).ok().unwrap(), "default1");
    let local = JsImportName::LocalModule { module: "x.js".to_string(), name: "g".to_string() };
    assert_eq!(context.import_name(&item(local, &["h", "i"])).ok().unwrap(), "g.h.i");
    let inline = JsImportName::InlineJs {
        unique_crate_identifier: "crate-1".to_string(),
        snippet_idx_in_crate: 12,
        name: "g".to_string(),
    };
    assert_eq!(context.import_name(&item(inline, &[])).ok().unwrap(), "g2");
    let (js, _) = context.finalize("demo").ok().unwrap();
    assert_eq!(
        js,
        "import { g as g2 } from './snippets/crate-1/inline12.js';
import { g } from './snippets/x.js';
import { f as f2, default as default1 } from 'a';
import { f } from 'b';
import * as wasm from './demo_bg';

"
    );
}

#[test]
fn imports_of_a_commonjs_module() {
    let config = options(OutputMode::Node { experimental_modules: false });
    let mut module = walrus::Module::default();
    let mut context = Context::new(&mut module, &config).ok().unwrap();
    assert!(context.import_name(&of_module("a", "f")).is_ok());
    assert!(context.import_name(&of_module("b", "f")).is_ok());
    let (js, _) = context.finalize("demo").ok().unwrap();
    assert_eq!(
        js,
        "let wasm;
const { f } = require(String.raw`a`);
const { f: f2 } = require(String.raw`b`);

wasm = require('./demo_bg');

"
    );
}

#[test]
fn a_script_cannot_import() {
    let config = options(OutputMode::NoModules { global: "demo".to_string() });
    let mut module = walrus::Module::default();
    let mut context = Context::new(&mut module, &config).ok().unwrap();
    assert!(context.import_name(&of_module("a", "f")).is_ok());
    let error = context.finalize("demo").err().unwrap();
    assert!(matches!(&error, GlueError::ModuleImport(module) if module == "a"));
    assert_eq!(
        error.message(),
        "importing from `a` isn't supported with `--target no-modules`"
    );
}

#[test]
fn an_item_keeps_its_name() {
    let config = bundler();
    let mut module = walrus::Module::default();
    let mut context = Context::new(&mut module, &config).ok().unwrap();
    for _ in 0..3 {
        assert_eq!(context.import_name(&of_module("a", "f")).ok().unwrap(), "f");
        assert_eq!(context.import_name(&global("alert")).ok().unwrap(), "alert");
    }
    let (js, _) = context.finalize("demo").ok().unwrap();
    assert_eq!(js, "import { f } from 'a';\nimport * as wasm from './demo_bg';\n\n");
}

#[test]
fn a_global_whose_name_is_taken() {
    let config = bundler();
    let mut module = walrus::Module::default();
    let mut context = Context::new(&mut module, &config).ok().unwrap();
    assert!(context.import_name(&of_module("a", "f")).is_ok());
    let error = context.import_name(&global("f")).err().unwrap();
    assert!(matches!(&error, GlueError::ImportedTwice(name) if name == "f"));
    assert_eq!(error.message(), "cannot import `f` from two locations");
}

#[test]
fn names_behind_prefixes() {
    let config = bundler();
    let mut module = walrus::Module::default();
    let mut context = Context::new(&mut module, &config).ok().unwrap();
    let name = JsImportName::VendorPrefixed {
        name: "AudioContext".to_string(),
        prefixes: vec!["webkit".to_string(), "moz".to_string()],
    };
    assert_eq!(context.import_name(&item(name, &["prototype"])).ok().unwrap(), "lAudioContext.prototype");
    let (js, _) = context.finalize("demo").ok().unwrap();
    assert_eq!(
        js,
        "import * as wasm from './demo_bg';

const lAudioContext = (typeof AudioContext !== 'undefined' ? AudioContext : (typeof webkitAudioContext !== 'undefined' ? webkitAudioContext : mozAudioContext));

"
    );
}

#[test]
fn names_of_imports_are_compared() {
    let a = JsImportName::VendorPrefixed { name: "x".to_string(), prefixes: vec!["p".to_string()] };
    let b = JsImportName::VendorPrefixed { name: "x".to_string(), prefixes: vec!["q".to_string()] };
    assert!(a.is(&a.copy()));
    assert!(!a.is(&b));
    assert!(!global("x").name.is(&a));
    assert!(!of_module("a", "x").name.is(&of_module("b", "x").name));
    assert!(of_module("a", "x").name.is(&of_module("a", "x").name));
}

/// A module with an imported function that it exports again, and the index of its import.
fn importing_module() -> (walrus::Module, usize, usize) {
    let mut module = walrus::Module::default();
    let memory = module.memories.add_local(false, 1, None);
    module.exports.add("memory", memory);
    let ty = module.types.add(&[], &[]);
    let function = module.add_import_func("env", "__wbg_log", ty);
    let export = module.exports.add("again", function);
    let import = module.imports.iter().next().unwrap().id();
    (module, import.index(), export.index())
}

fn where_from(module: &walrus::Module) -> (String, String) {
    let import = module.imports.iter().next().unwrap();
    (import.module.clone(), import.name.clone())
}

#[test]
fn definitions_of_an_es_module() {
    let config = bundler();
    let (mut module, id, _) = importing_module();
    let mut context = Context::new(&mut module, &config).ok().unwrap();
    context.generate_import(id, "function() { old(); }".to_string());
    context.generate_import(id, " function() { log(); }\n".to_string());
    let (js, _) = context.finalize("demo").ok().unwrap();
    assert_eq!(
        js,
        "import * as wasm from './demo_bg';

export const __wbg_log = function() { log(); };

"
    );
    assert_eq!(where_from(&module), ("./demo.js".to_string(), "__wbg_log".to_string()));
}

#[test]
fn definitions_of_a_commonjs_module() {
    let config = options(OutputMode::Node { experimental_modules: false });
    let (mut module, id, _) = importing_module();
    let mut context = Context::new(&mut module, &config).ok().unwrap();
    context.generate_import(id, "function() {}".to_string());
    let (js, _) = context.finalize("demo").ok().unwrap();
    assert_eq!(
        js,
        "let wasm;

module.exports.__wbg_log = function() {};
wasm = require('./demo_bg');

"
    );
    assert_eq!(where_from(&module).0, "./demo.js");
}

#[test]
fn definitions_for_browsers() {
    let config = options(OutputMode::Web);
    let (mut module, id, _) = importing_module();
    let mut context = Context::new(&mut module, &config).ok().unwrap();
    context.generate_import(id, "function() {}".to_string());
    let (js, _) = context.finalize("demo").ok().unwrap();
    assert!(js.starts_with("\nlet wasm;\n\nfunction init(module) {\n"));
    assert!(js.contains(
        "                    const imports = {};
                    imports.wbg = {};
imports.wbg.__wbg_log = function() {};

                    if (module"
    ));
    assert_eq!(where_from(&module).0, "wbg");
}

#[test]
fn an_import_that_nothing_uses() {
    let config = bundler();
    let mut module = walrus::Module::default();
    let ty = module.types.add(&[], &[]);
    module.add_import_func("env", "__wbg_log", ty);
    let id = module.imports.iter().next().unwrap().id().index();
    let mut context = Context::new(&mut module, &config).ok().unwrap();
    context.generate_import(id, "function() {}".to_string());
    let error = context.finalize("demo").err().unwrap();
    assert!(matches!(error, GlueError::UnusedImport));
    assert_eq!(error.message(), "an import of the module is not used");
}

#[test]
fn requests_come_in_order() {
    let mut config = bundler();
    config.debug = true;
    let (mut module, import, export) = importing_module();
    let mut context = Context::new(&mut module, &config).ok().unwrap();
    let bind = |kind: AuxExportKind| AuxExport {
        id: export,
        debug_name: "again".to_string(),
        comments: String::new(),
        arg_names: None,
        kind,
    };
    let class = || "Foo".to_string();
    let aux = WasmBindgenAux {
        export_map: vec![
            bind(AuxExportKind::Function("f".to_string())),
            bind(AuxExportKind::Constructor(class())),
            bind(AuxExportKind::Getter { class: class(), field: "x".to_string() }),
            bind(AuxExportKind::Setter { class: class(), field: "x".to_string() }),
            bind(AuxExportKind::StaticFunction { class: class(), name: "s".to_string() }),
            bind(AuxExportKind::Method { class: class(), name: "m".to_string(), consumed: false }),
            bind(AuxExportKind::Method { class: class(), name: "n".to_string(), consumed: true }),
        ],
        import_map: vec![AuxImport { id: import, description: "log".to_string() }],
        imports_with_variadic: vec![import],
        imports_with_catch: Vec::new(),
        enums: Vec::new(),
        structs: Vec::new(),
        extra_typescript: String::new(),
        package_jsons: Vec::new(),
    };
    let mut requests = Vec::new();
    for bound in 0..7 {
        assert!(context.can_generate(&aux, bound));
        match context.generate(&aux, bound) {
            Ok(Action::Export(request)) => {
                assert_eq!(request.invocation, "wasm.again");
                requests.push((
                    request.js_name,
                    request.constructor.is_some(),
                    request.method,
                    request.prefix,
                ));
            }
            _ => panic!("expected an export"),
        }
        let glue = ExportGlue {
            js: "function() {}".to_string(),
            ts: String::new(),
            js_doc: String::new(),
            ret_ty: String::new(),
        };
        assert!(context.answer_export(&aux.export_map[bound], Ok(glue)).is_ok());
    }
    assert_eq!(
        requests,
        vec![
            ("f".to_string(), false, None, "function"),
            ("constructor".to_string(), true, None, ""),
            ("x".to_string(), false, Some(false), ""),
            ("x".to_string(), false, Some(false), ""),
            ("s".to_string(), false, None, ""),
            ("m".to_string(), false, Some(false), ""),
            ("n".to_string(), false, Some(true), ""),
        ]
    );
    match context.generate(&aux, 7) {
        Ok(Action::Import(request)) => {
            assert!(request.variadic);
            assert!(!request.catch);
            assert!(request.catch_and_rethrow);
        }
        _ => panic!("expected an import"),
    }
    let failure = Err(GlueError::Translation("no such type".to_string()));
    let error = context.answer_import(&aux.import_map[0], failure).err().unwrap();
    assert!(matches!(&error, GlueError::Import { .. }));
    assert_eq!(error.message(), "failed to generate bindings for import `log`");
    assert_eq!(error.cause().unwrap().message(), "no such type");
    assert!(context.answer_import(&aux.import_map[0], Ok("f".to_string())).is_ok());
    assert!(matches!(context.generate(&aux, 8), Ok(Action::Done)));
}

#[test]
fn an_export_that_is_not_there() {
    let config = bundler();
    let (mut module, _, export) = importing_module();
    let context = Context::new(&mut module, &config).ok().unwrap();
    assert!(context.has_export(export));
    assert!(!context.has_export(export + 1));
}

#[test]
fn the_header_of_imports() {
    let script = options(OutputMode::NoModules { global: "g".to_string() });
    for config in [&bundler(), &script] {
        let mut module = walrus::Module::default();
        let context = Context::new(&mut module, config).ok().unwrap();
        assert_eq!(context.js_import_header().ok().unwrap(), "");
    }
    let config = bundler();
    let mut module = walrus::Module::default();
    let mut context = Context::new(&mut module, &config).ok().unwrap();
    assert!(context.import_name(&of_module("m", "b")).is_ok());
    assert!(context.import_name(&of_module("m", "a")).is_ok());
    assert_eq!(context.js_import_header().ok().unwrap(), "import { b, a } from 'm';\n");
    let mut module = walrus::Module::default();
    let mut context = Context::new(&mut module, &script).ok().unwrap();
    assert!(context.import_name(&of_module("m", "b")).is_ok());
    let error = context.js_import_header().err().unwrap();
    assert!(matches!(&error, GlueError::ModuleImport(module) if module == "m"));
}
