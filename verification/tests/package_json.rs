//! NPM dependencies.
use wasm_glue::bindings::PackageJson;
use wasm_glue::config::{Bindgen, EncodeInto, OutputMode};
use wasm_glue::context::Context;
use wasm_glue::error::GlueError;

fn options(mode: OutputMode) -> Bindgen {
    Bindgen {
        mode,
        debug: false,
        emit_start: false,
        weak_refs: false,
        anyref: false,
        encode_into: EncodeInto::Test,
    }
}

fn node() -> Bindgen {
    options(OutputMode::Node { experimental_modules: false })
}

fn file(path: &str, contents: &str) -> PackageJson {
    PackageJson { path: path.to_string(), contents: Ok(contents.to_string()) }
}

/// The error for a manifest.
fn refused(contents: &str) -> GlueError {
    let config = node();
    let mut module = walrus::Module::default();
    let mut context = Context::new(&mut module, &config).ok().unwrap();
    context.process_package_json(&file("p.json", contents)).err().unwrap()
}

#[test]
fn dependencies_are_collected() {
    let config = options(OutputMode::Bundler { browser_only: true });
    let mut module = walrus::Module::default();
    let mut context = Context::new(&mut module, &config).ok().unwrap();
    let first = r#"{ "dependencies": { "b": "^1.0", "a": "~2" } }"#;
    assert!(context.process_package_json(&file("x/package.json", first)).is_ok());
    assert!(context.process_package_json(&file("y/package.json", "{}")).is_ok());
    let second = r#"{ "dependencies": { "c": "*" } }"#;
    assert!(context.process_package_json(&file("z/package.json", second)).is_ok());
    let dependencies = &context.npm_dependencies;
    assert_eq!(dependencies.len(), 3);
    let entry = |name: &str| dependencies.get(name).cloned().unwrap();
    assert_eq!(entry("a"), ("x/package.json".to_string(), "~2".to_string()));
    assert_eq!(entry("b"), ("x/package.json".to_string(), "^1.0".to_string()));
    assert_eq!(entry("c"), ("z/package.json".to_string(), "*".to_string()));
}

#[test]
fn two_manifests_clash() {
    let config = node();
    let mut module = walrus::Module::default();
    let mut context = Context::new(&mut module, &config).ok().unwrap();
    let contents = r#"{ "dependencies": { "a": "1" } }"#;
    assert!(context.process_package_json(&file("x.json", contents)).is_ok());
    let error = context.process_package_json(&file("y.json", contents)).err().unwrap();
    assert!(matches!(&error, GlueError::DuplicateDependency { .. }));
    assert_eq!(
        error.message(),
        "dependency on NPM package `a` specified in two `package.json` files, \
         which at the time is not allowed:\n  * y.json\n  * x.json"
    );
}

#[test]
fn browsers_install_nothing() {
    for mode in [OutputMode::Web, OutputMode::NoModules { global: "g".to_string() }] {
        let config = options(mode);
        let mut module = walrus::Module::default();
        let mut context = Context::new(&mut module, &config).ok().unwrap();
        let missing = PackageJson { path: "p.json".to_string(), contents: Err("denied".to_string()) };
        let error = context.process_package_json(&missing).err().unwrap();
        assert!(matches!(&error, GlueError::DependenciesUnsupported { path } if path == "p.json"));
        assert_eq!(
            error.message(),
            "NPM dependencies have been specified in `p.json` but this is only \
             compatible with the `bundler` and `nodejs` targets"
        );
    }
}

#[test]
fn a_manifest_that_cannot_be_read() {
    let config = node();
    let mut module = walrus::Module::default();
    let mut context = Context::new(&mut module, &config).ok().unwrap();
    let missing = PackageJson { path: "p.json".to_string(), contents: Err("denied".to_string()) };
    let error = context.process_package_json(&missing).err().unwrap();
    assert!(matches!(
        &error,
        GlueError::UnreadableManifest { path, reason } if path == "p.json" && reason == "denied"
    ));
    assert_eq!(error.message(), "failed to read `p.json`");
}

#[test]
fn a_manifest_that_is_not_json() {
    let error = refused("{ \"dependencies\": ");
    assert!(matches!(&error, GlueError::InvalidJson(_)));
    assert_eq!(error.message(), "EOF while parsing a value at line 1 column 18");
}

#[test]
fn a_manifest_that_is_no_object() {
    let error = refused("[1]");
    assert!(matches!(&error, GlueError::ManifestNotObject { .. }));
    assert_eq!(error.message(), "expected `package.json` to have an JSON object in `p.json`");
}

#[test]
fn a_manifest_with_other_keys() {
    for contents in [r#"{ "name": "x" }"#, r#"{ "dependencies": {}, "name": "x" }"#] {
        let error = refused(contents);
        assert!(matches!(&error, GlueError::ManifestKeys { .. }));
        assert_eq!(
            error.message(),
            "NPM manifest found at `p.json` can currently only have one key, \
             `dependencies`, and no other fields"
        );
    }
}

#[test]
fn dependencies_that_are_no_object() {
    let error = refused(r#"{ "dependencies": [] }"#);
    assert!(matches!(&error, GlueError::DependenciesNotObject { .. }));
    assert_eq!(error.message(), "expected `dependencies` to be a JSON object in `p.json`");
}

#[test]
fn versions_that_are_no_strings() {
    let error = refused(r#"{ "dependencies": { "a": 1 } }"#);
    assert!(matches!(&error, GlueError::VersionNotString { .. }));
    assert_eq!(error.message(), "keys in `dependencies` are expected to be strings in `p.json`");
}

#[test]
fn manifests_without_a_file() {
    let config = node();
    let mut module = walrus::Module::default();
    let mut context = Context::new(&mut module, &config).ok().unwrap();
    let list = vec![
        ("a".to_string(), Some("1".to_string())),
        ("b".to_string(), None),
    ];
    let manifest = Some(vec![("dependencies".to_string(), Some(list))]);
    let error = context.add_manifest("p.json", &manifest).err().unwrap();
    assert!(matches!(error, GlueError::VersionNotString { .. }));
    assert!(context.npm_dependencies.get("a").is_some());
    assert!(context.npm_dependencies.get("b").is_none());
    assert!(context.add_manifest("p.json", &Some(Vec::new())).is_ok());
}
