//! What the glue exports: functions, enums and classes.
use wasm_glue::bindings::{AuxEnum, AuxExport, AuxExportKind, AuxStruct, WasmBindgenAux};
use wasm_glue::class::{format_doc_comments, require_class, ExportedClass};
use wasm_glue::config::{Bindgen, EncodeInto, OutputMode};
use wasm_glue::context::Context;
use wasm_glue::error::GlueError;
use wasm_glue::generate::{Action, ExportGlue};
use wasm_glue::names::NameMap;

fn options(mode: OutputMode) -> Bindgen {
    Bindgen {
        mode,
        debug: false,
        emit_start: false,
        weak_refs: false,
        anyref: false,
        encode_into: EncodeInto::Test,
    }
}

fn bundler() -> Bindgen {
    options(OutputMode::Bundler { browser_only: false })
}

fn node() -> Bindgen {
    options(OutputMode::Node { experimental_modules: false })
}

fn script() -> Bindgen {
    options(OutputMode::NoModules { global: "demo".to_string() })
}

fn module() -> walrus::Module {
    let mut module = walrus::Module::default();
    let memory = module.memories.add_local(false, 1, None);
    module.exports.add("memory", memory);
    module
}

fn glue(js: &str, ts: &str, js_doc: &str) -> ExportGlue {
    ExportGlue {
        js: js.to_string(),
        ts: ts.to_string(),
        js_doc: js_doc.to_string(),
        ret_ty: "number".to_string(),
    }
}

fn export(kind: AuxExportKind) -> AuxExport {
    AuxExport {
        id: 0,
        debug_name: "it".to_string(),
        comments: " Does it.".to_string(),
        arg_names: None,
        kind,
    }
}

fn class_export(class: &str, name: &str) -> AuxExport {
    export(AuxExportKind::Method {
        class: class.to_string(),
        name: name.to_string(),
        consumed: false,
    })
}

fn no_bindings() -> WasmBindgenAux {
    WasmBindgenAux {
        export_map: Vec::new(),
        import_map: Vec::new(),
        imports_with_variadic: Vec::new(),
        imports_with_catch: Vec::new(),
        enums: Vec::new(),
        structs: Vec::new(),
        extra_typescript: String::new(),
        package_jsons: Vec::new(),
    }
}

fn is_done(action: Result<Action, GlueError>) -> bool {
    matches!(action, Ok(Action::Done))
}

#[test]
fn documentation_comments() {
    assert_eq!(format_doc_comments("", None), "/**\n*/\n");
    assert_eq!(
        format_doc_comments(" a\n b", Some("@param {number} x\n@returns {number}".to_string())),
        "/**\n* a\n* b\n* @param {number} x \n* @returns {number} \n*/\n"
    );
    assert_eq!(format_doc_comments("a\r\n\n", Some(String::new())), "/**\n*a\n*\n*/\n");
}

#[test]
fn functions_of_an_es_module() {
    let config = bundler();
    let mut module = module();
    let mut context = Context::new(&mut module, &config).ok().unwrap();
    let f = export(AuxExportKind::Function("f".to_string()));
    let text = glue("function(x) {\n    return x;\n}\n", "function f(x: number): number;\n", "@p");
    assert!(context.generate_export(&f, &text).is_ok());
    assert!(context.generate_export(&f, &text).is_ok());
    let (js, ts) = context.finalize("demo").ok().unwrap();
    assert_eq!(
        js,
        "import * as wasm from './demo_bg';

/**
* Does it.
* @p 
*/
export function f(x) {
    return x;
}

/**
* Does it.
* @p 
*/
function f2(x) {
    return x;
}
export { f2 as f };

"
    );
    assert_eq!(
        ts,
        "/* tslint:disable */
/**
* Does it.
* @p 
*/
export function f(x: number): number;

/**
* Does it.
* @p 
*/
export function f(x: number): number;

"
    );
}

#[test]
fn functions_of_a_commonjs_module() {
    let config = node();
    let mut module = module();
    let mut context = Context::new(&mut module, &config).ok().unwrap();
    assert!(context.export("f", " function() {}\n", None).is_ok());
    let (js, ts) = context.finalize("demo").ok().unwrap();
    assert_eq!(
        js,
        "let wasm;\n\nmodule.exports.f = function() {};\n\nwasm = require('./demo_bg');\n\n"
    );
    assert_eq!(ts, "/* tslint:disable */\n");
}

#[test]
fn classes_of_a_commonjs_module() {
    let config = node();
    let mut module = module();
    let mut context = Context::new(&mut module, &config).ok().unwrap();
    assert!(context.export("A", "class A {}", Some("/**\n*/\n".to_string())).is_ok());
    let (js, ts) = context.finalize("demo").ok().unwrap();
    assert_eq!(
        js,
        "let wasm;\n\n/**\n*/\nclass A {}\nmodule.exports.A = A;\n\nwasm = require('./demo_bg');\n\n"
    );
    assert_eq!(ts, "/* tslint:disable */\n/**\n*/\n");
}

#[test]
fn exports_of_a_script() {
    let config = script();
    let mut module = module();
    let mut context = Context::new(&mut module, &config).ok().unwrap();
    assert!(context.export("A", "class A {}", None).is_ok());
    assert!(context.export("E", "Object.freeze({ })", None).is_ok());
    let (js, _) = context.finalize("demo").ok().unwrap();
    assert!(js.starts_with(
        "(function() {
const __exports = {};
let wasm;

class A {}
__exports.A = A;

__exports.E = Object.freeze({ });

function init(module) {
"
    ));
    assert!(js.ends_with("self.demo = Object.assign(init, __exports);\n\n})();\n"));
}

#[test]
fn constants_need_their_own_name_in_es_modules() {
    let config = bundler();
    let mut module = module();
    let mut context = Context::new(&mut module, &config).ok().unwrap();
    assert!(context.can_export("E", "Object.freeze({ })"));
    assert!(context.identifier_is_free("E"));
    assert!(!context.identifier_is_free("default"));
    assert!(!context.can_export("default", "1"));
    assert!(context.can_export("default", "function() {}"));
    assert!(context.export("E", "1", None).is_ok());
    assert!(!context.can_export("E", "2"));
    assert!(!context.can_export("E", " class E {}"));
    assert!(context.can_export("E", "class E {}"));
    let (js, _) = context.finalize("demo").ok().unwrap();
    assert_eq!(js, "import * as wasm from './demo_bg';\n\nexport const E = 1;\n\n");
}

#[test]
fn classes_cannot_shadow() {
    for config in [bundler(), node(), script()] {
        let mut module = module();
        let mut context = Context::new(&mut module, &config).ok().unwrap();
        assert!(context.export("A", "function() {}", None).is_ok());
        let error = context.export("A", "class A {}", None).err().unwrap();
        assert!(matches!(&error, GlueError::ShadowedClass(name) if name == "A"));
        assert_eq!(error.message(), "cannot shadow already defined class `A`");
    }
}

#[test]
fn enums() {
    let config = bundler();
    let mut module = module();
    let mut context = Context::new(&mut module, &config).ok().unwrap();
    let item = AuxEnum {
        name: "Color".to_string(),
        comments: " Colors.".to_string(),
        variants: vec![("Red".to_string(), 0), ("Blue".to_string(), 42)],
    };
    assert!(context.generate_enum(&item).is_ok());
    let (js, ts) = context.finalize("demo").ok().unwrap();
    assert_eq!(
        js,
        "import * as wasm from './demo_bg';

/**
* Colors.
*/
export const Color = Object.freeze({ Red:0,Blue:42, });

"
    );
    assert_eq!(
        ts,
        "/* tslint:disable */
export enum Color {
  Red,
  Blue,
}
/**
* Colors.
*/
"
    );
}

#[test]
fn enums_of_an_es_module_have_different_names() {
    let config = bundler();
    let mut module = module();
    let mut context = Context::new(&mut module, &config).ok().unwrap();
    let item = |name: &str| AuxEnum {
        name: name.to_string(),
        comments: String::new(),
        variants: Vec::new(),
    };
    assert!(context.can_export_enums(&vec![item("A"), item("B")]));
    assert!(!context.can_export_enums(&vec![item("A"), item("B"), item("A")]));
    assert!(!context.can_export_enums(&vec![item("default")]));
    let mut aux = no_bindings();
    aux.enums = vec![item("A"), item("B")];
    assert!(context.can_generate(&aux, 0));
    assert!(is_done(context.generate(&aux, 0)));
    assert!(!context.can_generate(&aux, 0));
    let config = node();
    let mut module = walrus::Module::default();
    let context = Context::new(&mut module, &config).ok().unwrap();
    assert!(context.can_export_enums(&vec![item("A"), item("A")]));
}

#[test]
fn a_class_with_members() {
    let config = bundler();
    let mut module = module();
    let mut context = Context::new(&mut module, &config).ok().unwrap();
    let class = || "Foo".to_string();
    let constructor = export(AuxExportKind::Constructor(class()));
    let text = glue("(x) {\n}\n", "constructor(x: number);\n", "");
    assert!(context.generate_export(&constructor, &text).is_ok());
    let getter = export(AuxExportKind::Getter { class: class(), field: "size".to_string() });
    assert!(context.generate_export(&getter, &glue("() {\n}\n", "ignored", "")).is_ok());
    let setter = export(AuxExportKind::Setter { class: class(), field: "size".to_string() });
    assert!(context.generate_export(&setter, &glue("(arg0) {\n}\n", "ignored", "")).is_ok());
    let getter = export(AuxExportKind::Getter { class: class(), field: "id".to_string() });
    assert!(context.generate_export(&getter, &glue("() {\n}\n", "ignored", "")).is_ok());
    let make = export(AuxExportKind::StaticFunction { class: class(), name: "make".to_string() });
    assert!(context.generate_export(&make, &glue("() {\n}\n", "make(): Foo;\n", "")).is_ok());
    let go = class_export("Foo", "go");
    assert!(context.generate_export(&go, &glue("() {\n}\n", "go(): void;\n", "")).is_ok());
    context.generate_struct(&AuxStruct { name: class(), comments: " A foo.".to_string() });
    context.require_class_wrap("Foo");
    let (js, ts) = context.finalize("demo").ok().unwrap();
    assert_eq!(
        js,
        "import * as wasm from './demo_bg';

function freeFoo(ptr) {
                wasm.__wbg_foo_free(ptr);
            }
/**
* A foo.
*/
export class Foo {

                static __wrap(ptr) {
                    const obj = Object.create(Foo.prototype);
                    obj.ptr = ptr;
                    
                    return obj;
                }
                
            free() {
                const ptr = this.ptr;
                this.ptr = 0;
                
                freeFoo(ptr);
            }
            /**
* Does it.
*/
constructor(x) {
}

/**
* Does it.
*/
get size() {
}

/**
* Does it.
*/
set size(arg0) {
}

/**
* Does it.
*/
get id() {
}

/**
* Does it.
*/
static make() {
}

/**
* Does it.
*/
go() {
}

}

"
    );
    assert_eq!(
        ts,
        "/* tslint:disable */
/**
* A foo.
*/
export class Foo {
  free(): void;/**
* Does it.
*/
  constructor(x: number);

/**
* Does it.
*/
  static make(): Foo;

/**
* Does it.
*/
  go(): void;

readonly id: number;
size: number;
}
"
    );
}

#[test]
fn a_class_that_frees_itself() {
    let mut config = node();
    config.weak_refs = true;
    config.debug = true;
    let mut module = module();
    let mut context = Context::new(&mut module, &config).ok().unwrap();
    context.require_class_wrap("HTMLFoo");
    let (js, ts) = context.finalize("demo").ok().unwrap();
    assert_eq!(
        js,
        "let wasm;

function freeHTMLFoo(ptr) {
                wasm.__wbg_htmlfoo_free(ptr);
            }

const HTMLFooFinalizationGroup = new FinalizationGroup((items) => {
                    for (const ptr of items) {
                        freeHTMLFoo(ptr);
                    }
                });

class HTMLFoo {

                    constructor() {
                        throw new Error('cannot invoke `new` directly');
                    }
                
                static __wrap(ptr) {
                    const obj = Object.create(HTMLFoo.prototype);
                    obj.ptr = ptr;
                    HTMLFooFinalizationGroup.register(obj, obj.ptr, obj.ptr);
                    return obj;
                }
                
            free() {
                const ptr = this.ptr;
                this.ptr = 0;
                HTMLFooFinalizationGroup.unregister(ptr);
                freeHTMLFoo(ptr);
            }
            }
module.exports.HTMLFoo = HTMLFoo;

wasm = require('./demo_bg');

"
    );
    assert_eq!(ts, "/* tslint:disable */\nexport class HTMLFoo {\n  free(): void;}\n");
}

#[test]
fn names_of_classes_in_lower_case() {
    let config = node();
    let mut module = module();
    let mut context = Context::new(&mut module, &config).ok().unwrap();
    context.require_class_wrap("ÄB");
    let (js, _) = context.finalize("demo").ok().unwrap();
    assert!(js.contains("wasm.__wbg_äb_free(ptr);"));
}

#[test]
fn classes_are_written_in_order() {
    let config = node();
    let mut module = module();
    let mut context = Context::new(&mut module, &config).ok().unwrap();
    for name in ["B", "C", "A"] {
        context.require_class_wrap(name);
    }
    let (js, _) = context.finalize("demo").ok().unwrap();
    let places: Vec<usize> =
        ["class A {", "class B {", "class C {"].iter().map(|class| js.find(class).unwrap()).collect();
    assert!(places[0] < places[1] && places[1] < places[2]);
}

#[test]
fn a_class_whose_name_is_taken() {
    let config = node();
    let mut module = module();
    let mut context = Context::new(&mut module, &config).ok().unwrap();
    assert!(context.export("A", "1", None).is_ok());
    context.require_class_wrap("A");
    let error = context.finalize("demo").err().unwrap();
    assert!(matches!(error, GlueError::ShadowedClass(_)));
}

#[test]
fn a_class_has_one_constructor() {
    let config = bundler();
    let mut module = module();
    let mut context = Context::new(&mut module, &config).ok().unwrap();
    let constructor = export(AuxExportKind::Constructor("Foo".to_string()));
    let text = || glue("() {\n}\n", "constructor();\n", "");
    assert!(context.answer_export(&constructor, Ok(text())).is_ok());
    let error = context.answer_export(&constructor, Ok(text())).err().unwrap();
    assert_eq!(error.message(), "failed to generate bindings for Rust export `it`");
    let cause = error.cause().unwrap();
    assert!(matches!(cause, GlueError::DuplicateConstructor(class) if class == "Foo"));
    assert_eq!(cause.message(), "found duplicate constructor for class `Foo`");
    assert!(cause.cause().is_none());
}

#[test]
fn a_translation_that_failed() {
    let config = bundler();
    let mut module = module();
    let mut context = Context::new(&mut module, &config).ok().unwrap();
    let f = export(AuxExportKind::Function("f".to_string()));
    let failure = Err(GlueError::Translation("unsupported type".to_string()));
    let error = context.answer_export(&f, failure).err().unwrap();
    assert_eq!(error.cause().unwrap().message(), "unsupported type");
}

#[test]
fn classes_are_found_again() {
    let mut classes: Option<NameMap<ExportedClass>> = Some(NameMap::new());
    require_class(&mut classes, "A").push("/** */", "f", "static ", "() {}", "f(): void;");
    require_class(&mut classes, "B").push_field("", "x", "() {}", Some("number"), true);
    require_class(&mut classes, "A");
    assert_eq!(classes.unwrap().len(), 2);
}

#[test]
fn additional_typescript() {
    let config = bundler();
    let mut module = module();
    let mut context = Context::new(&mut module, &config).ok().unwrap();
    let mut aux = no_bindings();
    aux.extra_typescript = "type X = number;\n".to_string();
    aux.structs = vec![AuxStruct { name: "S".to_string(), comments: " An S.".to_string() }];
    assert!(is_done(context.generate(&aux, 0)));
    let (js, ts) = context.finalize("demo").ok().unwrap();
    assert!(js.contains("/**\n* An S.\n*/\nexport class S {\n"));
    assert_eq!(
        ts,
        "/* tslint:disable */
type X = number;
/**
* An S.
*/
export class S {
  free(): void;}
"
    );
}

#[test]
fn a_function_behind_the_classes() {
    let config = bundler();
    let mut module = module();
    let mut context = Context::new(&mut module, &config).ok().unwrap();
    assert!(context.has_classes());
    assert!(context.finalize("demo").is_ok());
    assert!(!context.has_classes());
    let f = export(AuxExportKind::Function("f".to_string()));
    let text = glue("function() {}\n", "function f(): void;\n", "");
    assert!(context.generate_export(&f, &text).is_ok());
    assert!(context.answer_export(&f, Ok(text)).is_ok());
    let none = no_bindings();
    assert!(context.can_generate(&none, 0));
    assert!(is_done(context.generate(&none, 0)));
    let (js, _) = context.finalize_js("demo", false).ok().unwrap();
    assert!(js.contains("export function f() {}\n"));
    assert!(js.contains("function f2() {}\nexport { f2 as f };\n"));
}

#[test]
fn structures_need_classes() {
    let config = bundler();
    let mut module = module();
    let mut context = Context::new(&mut module, &config).ok().unwrap();
    let mut aux = no_bindings();
    aux.structs.push(AuxStruct { name: "A".to_string(), comments: String::new() });
    assert!(context.can_generate(&aux, 0));
    assert!(context.finalize("demo").is_ok());
    assert!(!context.can_generate(&aux, 0));
}

#[test]
fn fields_and_constructors_over_many_calls() {
    let config = bundler();
    let mut module = module();
    let mut context = Context::new(&mut module, &config).ok().unwrap();
    let class = || "Foo".to_string();
    let field = |name: &str| (class(), name.to_string());
    let constructor = export(AuxExportKind::Constructor(class()));
    assert!(context.generate_export(&constructor, &glue("() {}", "constructor();", "")).is_ok());
    for name in ["b", "a", "b"] {
        let (class, field) = field(name);
        let getter = export(AuxExportKind::Getter { class, field });
        assert!(context.generate_export(&getter, &glue("() {}", "", "")).is_ok());
    }
    let (owner, name) = field("b");
    let setter = export(AuxExportKind::Setter { class: owner, field: name });
    assert!(context.answer_export(&setter, Ok(glue("(x) {}", "", ""))).is_ok());
    let mut getter = glue("() {}", "", "");
    getter.ret_ty = "string".to_string();
    let (owner, name) = field("b");
    let last = export(AuxExportKind::Getter { class: owner, field: name });
    assert!(context.answer_export(&last, Ok(getter)).is_ok());
    context.require_class_wrap("Foo");
    context.generate_struct(&AuxStruct { name: class(), comments: String::new() });
    let none = no_bindings();
    assert!(is_done(context.generate(&none, 0)));
    let again = glue("() {}", "constructor();", "");
    let error = context.generate_export(&constructor, &again).err().unwrap();
    assert!(matches!(&error, GlueError::DuplicateConstructor(name) if name == "Foo"));
    let other = export(AuxExportKind::Constructor("Bar".to_string()));
    assert!(context.generate_export(&other, &again).is_ok());
    let (_, ts) = context.finalize("demo").ok().unwrap();
    assert!(ts.contains("readonly a: number;\nb: string;\n"));
}
