//! The runtime environment factory: builds one immutable base environment
//! per backend variant, with the capability gate applied before the
//! environment is published.
//!
//! The differences between variants are data — which primitive modules are
//! registered, under which names, and with which capabilities — not code.
//! Modules are registered in strict dependency order: the foundational
//! primitives first (so the basic types exist when anything else loads),
//! io-capable modules last, and a process-spawning module only when the
//! capability set explicitly enables it.

use vstd::prelude::*;
use crate::engine;
use crate::text;

verus! {

/// One selectable configuration of the embedded interpreter.
#[derive(Clone, Copy, PartialEq, Eq, Structural, Debug)]
pub enum BackendVariant {
    /// The interpreter as released.
    Stable,
    /// The interpreter's development build.
    Master,
}

impl BackendVariant {
    /// The name under which this variant's evaluation backend is exposed to
    /// the host dispatch layer.
    pub fn host_module_name(&self) -> (r: String)
        ensures
            *self is Stable ==> r@ == "gluon.try"@,
            *self is Master ==> r@ == "gluon.try.master"@,
    {
        match self {
            BackendVariant::Stable => String::from_str("gluon.try"),
            BackendVariant::Master => String::from_str("gluon.try.master"),
        }
    }
}

/// What an interpreter instance is allowed to do, fixed at bootstrap; there
/// is no way to widen this after the environment is published.
#[derive(Clone, Copy, PartialEq, Eq, Structural)]
pub struct CapabilitySet {
    /// Whether the process-spawning primitive module is registered at all.
    pub allow_process_primitives: bool,
}

impl CapabilitySet {
    /// The default capability set: no process-spawning primitives.
    pub fn restricted() -> (c: CapabilitySet)
        ensures
            !c.allow_process_primitives,
    {
        CapabilitySet { allow_process_primitives: false }
    }
}

/// Which engine loader fills a registered primitive module.
#[derive(Clone, Copy, PartialEq, Eq, Structural, Debug)]
pub enum PrimitiveLoader {
    Prim,
    Byte,
    Int,
    Float,
    Str,
    Fs,
    Path,
    Char,
    Array,
    Lazy,
    Reference,
    Io,
    Process,
    Json,
}

/// One entry of the primitive module registry: the name submissions import
/// it by, and the loader that fills it.
pub struct ModuleDef {
    pub name: String,
    pub loader: PrimitiveLoader,
}

/// A bootstrap failure: fatal for the affected variant only.
pub struct FactoryError {
    pub message: String,
}

/// The registry a variant asks for, given a capability set: pairs of module
/// name and loader, in registration order.  Io-capable loaders come after
/// every pure loader they may depend on, and the process module appears only
/// when the capability set enables it.
pub open spec fn spec_variant_modules(variant: BackendVariant, caps: CapabilitySet) -> Seq<
    (Seq<char>, PrimitiveLoader),
> {
    match variant {
        BackendVariant::Stable => {
            let head = seq![
                ("std.prim"@, PrimitiveLoader::Prim),
                ("std.byte.prim"@, PrimitiveLoader::Byte),
                ("std.int.prim"@, PrimitiveLoader::Int),
                ("std.float.prim"@, PrimitiveLoader::Float),
                ("std.string.prim"@, PrimitiveLoader::Str),
                ("std.fs.prim"@, PrimitiveLoader::Fs),
                ("std.path.prim"@, PrimitiveLoader::Path),
                ("std.char.prim"@, PrimitiveLoader::Char),
                ("std.array.prim"@, PrimitiveLoader::Array),
                ("std.lazy.prim"@, PrimitiveLoader::Lazy),
                ("std.reference.prim"@, PrimitiveLoader::Reference),
                ("std.io.prim"@, PrimitiveLoader::Io),
            ];
            if caps.allow_process_primitives {
                head + seq![
                    ("std.process.prim"@, PrimitiveLoader::Process),
                    ("std.json.prim"@, PrimitiveLoader::Json),
                ]
            } else {
                head + seq![("std.json.prim"@, PrimitiveLoader::Json)]
            }
        },
        BackendVariant::Master => seq![
            ("std.prim"@, PrimitiveLoader::Prim),
            ("std.int.prim"@, PrimitiveLoader::Int),
            ("std.float.prim"@, PrimitiveLoader::Float),
            ("std.string.prim"@, PrimitiveLoader::Str),
            ("std.char.prim"@, PrimitiveLoader::Char),
            ("std.array.prim"@, PrimitiveLoader::Array),
            ("std.lazy"@, PrimitiveLoader::Lazy),
            ("std.reference"@, PrimitiveLoader::Reference),
            ("std.io.prim"@, PrimitiveLoader::Io),
        ],
    }
}

/// Builds the registry for `variant` under `caps`.  This is the capability
/// gate's decision: a loader the capability set declines — the
/// process-spawning one, unless explicitly enabled — never enters the
/// registry.
pub fn variant_modules(variant: BackendVariant, caps: &CapabilitySet) -> (r: Vec<ModuleDef>)
    ensures
        r@.len() == spec_variant_modules(variant, *caps).len(),
        forall|i: int|
            0 <= i < r@.len() ==> (r@[i].name@, r@[i].loader) == spec_variant_modules(
                variant,
                *caps,
            )[i],
        forall|i: int|
            0 <= i < r@.len() ==> (r@[i].loader is Process ==> caps.allow_process_primitives),
{
    let mut r: Vec<ModuleDef> = Vec::new();
    match variant {
        BackendVariant::Stable => {
            r.push(ModuleDef { name: String::from_str("std.prim"), loader: PrimitiveLoader::Prim });
            r.push(
                ModuleDef { name: String::from_str("std.byte.prim"), loader: PrimitiveLoader::Byte },
            );
            r.push(
                ModuleDef { name: String::from_str("std.int.prim"), loader: PrimitiveLoader::Int },
            );
            r.push(
                ModuleDef {
                    name: String::from_str("std.float.prim"),
                    loader: PrimitiveLoader::Float,
                },
            );
            r.push(
                ModuleDef {
                    name: String::from_str("std.string.prim"),
                    loader: PrimitiveLoader::Str,
                },
            );
            r.push(ModuleDef { name: String::from_str("std.fs.prim"), loader: PrimitiveLoader::Fs });
            r.push(
                ModuleDef { name: String::from_str("std.path.prim"), loader: PrimitiveLoader::Path },
            );
            r.push(
                ModuleDef { name: String::from_str("std.char.prim"), loader: PrimitiveLoader::Char },
            );
            r.push(
                ModuleDef {
                    name: String::from_str("std.array.prim"),
                    loader: PrimitiveLoader::Array,
                },
            );
            r.push(
                ModuleDef { name: String::from_str("std.lazy.prim"), loader: PrimitiveLoader::Lazy },
            );
            r.push(
                ModuleDef {
                    name: String::from_str("std.reference.prim"),
                    loader: PrimitiveLoader::Reference,
                },
            );
            r.push(ModuleDef { name: String::from_str("std.io.prim"), loader: PrimitiveLoader::Io });
            if caps.allow_process_primitives {
                r.push(
                    ModuleDef {
                        name: String::from_str("std.process.prim"),
                        loader: PrimitiveLoader::Process,
                    },
                );
            }
            r.push(
                ModuleDef { name: String::from_str("std.json.prim"), loader: PrimitiveLoader::Json },
            );
        },
        BackendVariant::Master => {
            r.push(ModuleDef { name: String::from_str("std.prim"), loader: PrimitiveLoader::Prim });
            r.push(
                ModuleDef { name: String::from_str("std.int.prim"), loader: PrimitiveLoader::Int },
            );
            r.push(
                ModuleDef {
                    name: String::from_str("std.float.prim"),
                    loader: PrimitiveLoader::Float,
                },
            );
            r.push(
                ModuleDef {
                    name: String::from_str("std.string.prim"),
                    loader: PrimitiveLoader::Str,
                },
            );
            r.push(
                ModuleDef { name: String::from_str("std.char.prim"), loader: PrimitiveLoader::Char },
            );
            r.push(
                ModuleDef {
                    name: String::from_str("std.array.prim"),
                    loader: PrimitiveLoader::Array,
                },
            );
            r.push(ModuleDef { name: String::from_str("std.lazy"), loader: PrimitiveLoader::Lazy });
            r.push(
                ModuleDef {
                    name: String::from_str("std.reference"),
                    loader: PrimitiveLoader::Reference,
                },
            );
            r.push(ModuleDef { name: String::from_str("std.io.prim"), loader: PrimitiveLoader::Io });
        },
    }
    r
}

/// One immutable base environment: the registry of loadable primitive
/// modules, the capability set baked in at bootstrap, and the engine
/// instance they were registered on.  Never mutated after publication;
/// shared by reference across all sessions of its variant.
pub struct BaseEnvironment {
    pub variant: BackendVariant,
    pub capabilities: CapabilitySet,
    /// The registered primitive module set: the only names an `import` in a
    /// submission can ever resolve.
    pub modules: Vec<ModuleDef>,
    /// The module-resolution search path, cleared before publication so that
    /// `import` cannot reach the filesystem.
    pub search_paths: Vec<String>,
    /// The engine instance the registry was registered on.
    pub thread: gluon::RootedThread,
}

impl BaseEnvironment {
    /// The capability gate held: the search path is empty and no registered
    /// loader is outside what the capability set allows.
    pub open spec fn wf(self) -> bool {
        &&& self.search_paths@.len() == 0
        &&& forall|i: int|
            0 <= i < self.modules@.len() ==> (self.modules@[i].loader is Process
                ==> self.capabilities.allow_process_primitives)
    }

    /// `path` names a registered primitive module.
    pub open spec fn spec_registered(self, path: Seq<char>) -> bool {
        exists|i: int| 0 <= i < self.modules@.len() && self.modules@[i].name@ == path
    }

    /// The engine instance this environment was bootstrapped on.
    pub fn engine_thread(&self) -> &gluon::Thread {
        engine::thread_ref(&self.thread)
    }

    /// Resolves an `import` against the registered primitive module set:
    /// succeeds with the registry index exactly when `path` is registered,
    /// and otherwise reports the diagnostic every out-of-registry import
    /// gets.  There is no other way a path can resolve: the search path that
    /// could reach the filesystem is empty.
    pub fn resolve_import(&self, path: &str) -> (r: Result<usize, String>)
        ensures
            r is Ok <==> self.spec_registered(path@),
            r matches Ok(i) ==> i < self.modules@.len() && self.modules@[i as int].name@
                == path@,
            r matches Err(m) ==> m@ == "import is restricted to the registered primitive modules"@,
    {
        let mut i: usize = 0;
        while i < self.modules.len()
            invariant
                i <= self.modules@.len(),
                forall|j: int| 0 <= j < i ==> self.modules@[j].name@ != path@,
            decreases self.modules@.len() - i,
        {
            if text::str_eq(self.modules[i].name.as_str(), path) {
                return Ok(i);
            }
            i = i + 1;
        }
        Err(String::from_str("import is restricted to the registered primitive modules"))
    }
}

/// Registers one module on the engine through the loader its entry names.
fn register_module(vm: &gluon::RootedThread, m: &ModuleDef) {
    match m.loader {
        PrimitiveLoader::Prim => engine::register_prim(vm, m.name.as_str()),
        PrimitiveLoader::Byte => engine::register_byte_prim(vm, m.name.as_str()),
        PrimitiveLoader::Int => engine::register_int_prim(vm, m.name.as_str()),
        PrimitiveLoader::Float => engine::register_float_prim(vm, m.name.as_str()),
        PrimitiveLoader::Str => engine::register_string_prim(vm, m.name.as_str()),
        PrimitiveLoader::Fs => engine::register_fs_prim(vm, m.name.as_str()),
        PrimitiveLoader::Path => engine::register_path_prim(vm, m.name.as_str()),
        PrimitiveLoader::Char => engine::register_char_prim(vm, m.name.as_str()),
        PrimitiveLoader::Array => engine::register_array_prim(vm, m.name.as_str()),
        PrimitiveLoader::Lazy => engine::register_lazy_prim(vm, m.name.as_str()),
        PrimitiveLoader::Reference => engine::register_reference_prim(vm, m.name.as_str()),
        PrimitiveLoader::Io => engine::register_io_prim(vm, m.name.as_str()),
        PrimitiveLoader::Process => engine::register_process_prim(vm, m.name.as_str()),
        PrimitiveLoader::Json => engine::register_json_prim(vm, m.name.as_str()),
    }
}

/// Creates an engine instance, applies the import gate, and registers
/// `modules` in order: the foundational primitives first, then the
/// bootstrap expression that loads the basic types, then every remaining
/// module.  A bootstrap failure is returned, not propagated as a fault.
fn bootstrap_engine(modules: &Vec<ModuleDef>) -> (r: Result<gluon::RootedThread, FactoryError>)
    requires
        modules@.len() >= 1,
        modules@[0].loader is Prim,
        modules@[0].name@ == "std.prim"@,
{
    let vm = engine::new_rooted_thread();
    engine::install_import_gate(&vm);
    register_module(&vm, &modules[0]);
    let boot = engine::run_rendered(
        engine::thread_ref(&vm),
        "",
        "//@NO-IMPLICIT-PRELUDE\nlet _ = import! std.types\nlet _ = import! std.prim\n()",
        crate::render::DEFAULT_RENDER_DEPTH,
    );
    match boot {
        Ok(_) => {},
        Err(e) => {
            return Err(FactoryError { message: engine::error_message(&e) });
        },
    }
    let mut i: usize = 1;
    while i < modules.len()
        decreases modules@.len() - i,
    {
        register_module(&vm, &modules[i]);
        i = i + 1;
    }
    Ok(vm)
}

/// Bootstraps the default evaluation engine: the stable variant's module
/// registry under the restricted capability set, on a fresh engine instance
/// with the import gate applied.  A bootstrap failure is reported as the
/// error text, never a fault of the host.
pub fn make_eval_vm() -> Result<gluon::RootedThread, String> {
    let caps = CapabilitySet::restricted();
    let modules = variant_modules(BackendVariant::Stable, &caps);
    proof {
        assert(spec_variant_modules(BackendVariant::Stable, caps)[0] == (
            "std.prim"@,
            PrimitiveLoader::Prim,
        ));
    }
    match bootstrap_engine(&modules) {
        Ok(vm) => Ok(vm),
        Err(e) => Err(e.message),
    }
}

/// Builds the base environment for one variant: the capability-gated module
/// registry, registered on a fresh engine instance whose import search path
/// was cleared before anything else could observe it.  Failure is fatal for
/// this variant only; the caller marks the variant unavailable and other
/// variants keep serving.
pub fn initialize(variant: BackendVariant, caps: CapabilitySet) -> (r: Result<
    BaseEnvironment,
    FactoryError,
>)
    ensures
        r matches Ok(env) ==> {
            &&& env.wf()
            &&& env.variant == variant
            &&& env.capabilities == caps
            &&& env.modules@.len() == spec_variant_modules(variant, caps).len()
            &&& forall|i: int|
                0 <= i < env.modules@.len() ==> (env.modules@[i].name@, env.modules@[i].loader)
                    == spec_variant_modules(variant, caps)[i]
        },
{
    let modules = variant_modules(variant, &caps);
    proof {
        assert(spec_variant_modules(variant, caps)[0] == ("std.prim"@, PrimitiveLoader::Prim));
    }
    let thread = match bootstrap_engine(&modules) {
        Ok(t) => t,
        Err(e) => {
            return Err(e);
        },
    };
    Ok(
        BaseEnvironment {
            variant,
            capabilities: caps,
            modules,
            search_paths: Vec::new(),
            thread,
        },
    )
}

} // verus!
