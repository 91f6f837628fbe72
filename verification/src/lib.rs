//! Generates the JavaScript glue for a WebAssembly module.
//!
//! A WebAssembly module and JavaScript pass each other numbers only. The glue that is generated
//! here lets them pass each other strings, arrays, objects and classes: it consists of JavaScript
//! that wraps the exports of the module and provides its imports, of TypeScript that gives the
//! types, and of changes to the module that fit these.
//!
//! A run goes through a [`context::Context`]:
//!
//! * [`context::Context::new`] starts it;
//! * [`context::Context::generate`] tells, step by step, what has to be bound. Whoever runs the
//!   generator translates an export or an import by its types, with the helpers of [`expose`], and
//!   hands it to [`context::Context::answer_export`] or [`context::Context::answer_import`];
//! * [`context::Context::finalize`] ends it and gives the glue.
//!
//! The state of a run is modelled by a [`context::GlueView`], and each operation by a function on
//! that model: the contract of an operation says that it does what the function says. What a
//! helper consists of is a table, [`context::GlueView::steps`]. What holds of the generator as a
//! whole is stated apart, in these modules, and in the `law_` functions of the others:
//!
//! * [`text_laws`] and [`parts`]: texts, numbers and names;
//! * [`model_laws`]: what the models tell apart, and what errors read like;
//! * [`context_laws`]: single operations on a run;
//! * [`import_laws`], [`binding_laws`], [`export_laws`] and [`manifest_laws`]: what imports, exports,
//!   enums, structs, classes and `package.json` files become;
//! * [`helper_laws`], [`helper_text_laws`], [`vector_laws`], [`keys`], [`calls`] and [`reader_laws`]:
//!   the helpers, their texts and what they need;
//! * [`run_laws`] and [`class_laws`]: any number of operations, one after the other;
//! * [`glue_laws`], [`end_laws`] and [`laws`]: the end of a run and the finished glue.
//!
//! The calls into other crates are in [`module`] (`walrus`), [`package_json`] (`serde_json`),
//! [`export`] (`wasm_bindgen_shared`) and [`text`] (the standard library). What these state of the
//! functions that they call is not proved.
//!
//! Collecting the garbage of a module panics where an item of the module names one that is not
//! there. So [`context::Context::finalize`] asks that the module is intact, which a parsed module
//! is; [`context::GlueView::can_finalize`] says what exactly it needs.
pub mod binding_laws;
pub mod bindings;
pub mod calls;
pub mod class;
pub mod class_laws;
pub mod config;
pub mod context;
pub mod context_laws;
pub mod end_laws;
pub mod error;
pub mod export;
pub mod export_laws;
pub mod expose;
pub mod finalize;
pub mod generate;
pub mod glue_laws;
pub mod helper_laws;
pub mod helper_text_laws;
pub mod helpers;
pub mod import_laws;
pub mod imports;
pub mod keys;
pub mod laws;
pub mod manifest_laws;
pub mod model_laws;
pub mod module;
pub mod names;
pub mod package_json;
pub mod parts;
pub mod reader_laws;
pub mod run_laws;
pub mod snippets;
pub mod text;
pub mod text_laws;
pub mod vector_laws;
