//! What the glue is generated for: the options of one run.
use vstd::prelude::*;

verus! {

/// The environment that the generated glue runs in.
pub enum OutputMode {
    /// An ES module for a bundler.
    Bundler {
        /// Whether the bundle runs in browsers only.
        browser_only: bool,
    },
    /// An ES module for browsers.
    Web,
    /// A script for browsers.
    NoModules {
        /// The name that the bindings get on the global object.
        global: String,
    },
    /// A module for Node.js.
    Node {
        /// Whether it is an ES module; a CommonJS module otherwise.
        experimental_modules: bool,
    },
}

impl OutputMode {
    /// Whether the glue is a script.
    #[verifier::allow_in_spec]
    pub fn no_modules(&self) -> bool
        returns
            self is NoModules,
    {
        match self {
            OutputMode::NoModules { .. } => true,
            _ => false,
        }
    }

    /// Whether the glue is for Node.js.
    #[verifier::allow_in_spec]
    pub fn nodejs(&self) -> bool
        returns
            self is Node,
    {
        match self {
            OutputMode::Node { .. } => true,
            _ => false,
        }
    }

    /// Whether the glue is for a bundler.
    #[verifier::allow_in_spec]
    pub fn bundler(&self) -> bool
        returns
            self is Bundler,
    {
        match self {
            OutputMode::Bundler { .. } => true,
            _ => false,
        }
    }

    /// Whether the glue is an ES module.
    #[verifier::allow_in_spec]
    pub fn uses_es_modules(&self) -> bool
        returns
            (match self {
                OutputMode::Bundler { .. } => true,
                OutputMode::Web => true,
                OutputMode::NoModules { .. } => false,
                OutputMode::Node { experimental_modules } => *experimental_modules,
            }),
    {
        match self {
            OutputMode::Bundler { .. } => true,
            OutputMode::Web => true,
            OutputMode::NoModules { .. } => false,
            OutputMode::Node { experimental_modules } => *experimental_modules,
        }
    }

    /// Whether the glue never runs outside a browser.
    #[verifier::allow_in_spec]
    pub fn always_run_in_browser(&self) -> bool
        returns
            (match self {
                OutputMode::Bundler { browser_only } => *browser_only,
                OutputMode::Web => true,
                OutputMode::NoModules { .. } => true,
                OutputMode::Node { .. } => false,
            }),
    {
        match self {
            OutputMode::Bundler { browser_only } => *browser_only,
            OutputMode::Web => true,
            OutputMode::NoModules { .. } => true,
            OutputMode::Node { .. } => false,
        }
    }
}

/// When `TextEncoder.encodeInto` is used to pass strings.
#[derive(Clone, Copy)]
pub enum EncodeInto {
    /// Where the environment turns out to have it.
    Test,
    /// Always.
    Always,
    /// Never.
    Never,
}

/// The options of one run.
pub struct Bindgen {
    /// The environment that the glue runs in.
    pub mode: OutputMode,
    /// Whether the glue checks the values that it is handed.
    pub debug: bool,
    /// Whether the start function of the module is run by the glue.
    pub emit_start: bool,
    /// Whether objects are freed when JavaScript drops them.
    pub weak_refs: bool,
    /// Whether JavaScript values are kept in a table of the module, not in an array of the glue.
    pub anyref: bool,
    /// How strings are passed.
    pub encode_into: EncodeInto,
}

/// What the items of a slice are that is passed between JavaScript and the module.
#[derive(Clone, Copy)]
pub enum VectorKind {
    I8,
    U8,
    ClampedU8,
    I16,
    U16,
    I32,
    U32,
    I64,
    U64,
    F32,
    F64,
    String,
    Anyref,
}

} // verus!
