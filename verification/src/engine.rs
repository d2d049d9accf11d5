//! The trusted boundary to the embedded Gluon interpreter.
//!
//! Everything the orchestrator needs from the engine crosses through the
//! items in this module: each wrapper carries one engine operation, and its
//! contract states only what the engine's own source shows.  The engine's
//! threads, values and errors are opaque to the verifier; the orchestration
//! around these calls is verified against the contracts stated here.

use vstd::prelude::*;

verus! {

use gluon::ThreadExt;
use gluon::vm::thread::ThreadInternal;
use crate::outcome::EngineFault;

#[verifier::external_type_specification]
#[verifier::external_body]
pub struct ExRootedThread(gluon::RootedThread);

#[verifier::external_type_specification]
#[verifier::external_body]
pub struct ExThread(gluon::Thread);

#[verifier::external_type_specification]
#[verifier::external_body]
pub struct ExGluonError(gluon::Error);

#[verifier::external_type_specification]
#[verifier::external_body]
pub struct ExVmError(gluon::vm::Error);

/// Relies on `gluon::RootedThread::new`: creates a fresh virtual machine
/// with an empty global environment.
#[verifier::external_body]
pub(crate) fn new_rooted_thread() -> gluon::RootedThread {
    gluon::RootedThread::new()
}

/// Relies on `RootedThread`'s `Deref` impl: borrows the thread that the
/// rooted handle owns.
#[verifier::external_body]
pub(crate) fn thread_ref(vm: &gluon::RootedThread) -> &gluon::Thread {
    &**vm
}

/// Relies on `gluon::import::Import::new` and `Thread::get_macros`: installs
/// the `import` macro with its module search path cleared, so that `import`
/// can resolve only modules registered on this machine, never a filesystem
/// path.
#[verifier::external_body]
pub(crate) fn install_import_gate(vm: &gluon::RootedThread) {
    let import = gluon::import::Import::new(gluon::import::DefaultImporter);
    import.paths.write().unwrap().clear();
    vm.get_macros().insert(String::from("import"), import);
}

/// Relies on `gluon::vm::thread::Thread::set_memory_limit`: caps how many
/// bytes this thread's collector will hand out.
#[verifier::external_body]
pub(crate) fn set_memory_ceiling(vm: &gluon::Thread, bytes: usize) {
    vm.set_memory_limit(bytes);
}

/// Relies on `gluon::vm::thread::Context::set_max_stack_size`: caps how many
/// values fit on this thread's stack.
#[verifier::external_body]
pub(crate) fn set_stack_ceiling(vm: &gluon::Thread, frames: u32) {
    vm.context().set_max_stack_size(frames);
}

/// Relies on `gluon::vm::thread::Thread::new_thread`: spawns a child thread
/// with its own stack and heap that shares this thread's global environment.
#[verifier::external_body]
pub(crate) fn new_session_thread(vm: &gluon::Thread) -> Result<gluon::RootedThread, gluon::vm::Error> {
    vm.new_thread()
}

/// Relies on `gluon::ThreadExt::run_expr` and
/// `gluon::vm::internal::ValuePrinter`: compiles and runs `body`, and on
/// success returns the produced value rendered no deeper than `max_depth`
/// levels, paired with the display of its inferred type.
#[verifier::external_body]
pub(crate) fn run_rendered(
    vm: &gluon::Thread,
    name: &str,
    body: &str,
    max_depth: i32,
) -> Result<(String, String), gluon::Error> {
    let (value, typ) = vm.run_expr::<gluon::vm::api::OpaqueValue<&gluon::Thread, gluon::vm::api::Hole>>(name, body)?;
    let env = gluon::base::ast::EmptyEnv::<gluon::base::symbol::Symbol>::default();
    let level = gluon::base::DebugLevel::default();
    let mut printer = gluon::vm::internal::ValuePrinter::new(&env, &typ, value.get_variant(), &level);
    Ok((format!("{}", printer.max_level(max_depth)), format!("{}", typ)))
}

/// Relies on `gluon::ThreadExt::format_expr` with a default
/// `gluon_format::Formatter`: parses `input` and re-emits it in canonical
/// formatting without executing it.
#[verifier::external_body]
pub(crate) fn format_source_call(
    vm: &gluon::Thread,
    name: &str,
    input: &str,
) -> Result<String, gluon::Error> {
    vm.format_expr(&mut gluon_format::Formatter::default(), name, input)
}

/// Relies on `gluon::Error`'s `Display` impl: the engine's own rendering of
/// a fault.
#[verifier::external_body]
pub(crate) fn error_message(err: &gluon::Error) -> String {
    format!("{}", err)
}

/// Relies on `gluon::vm::Error`'s `Display` impl: the engine's own rendering
/// of a thread fault.
#[verifier::external_body]
pub(crate) fn vm_error_message(err: &gluon::vm::Error) -> String {
    format!("{}", err)
}

/// Relies on the variants of `gluon::Error` and `gluon::vm::Error`: tells a
/// quota breach apart from every other fault.  `OutOfMemory` and
/// `StackOverflow` are the memory and stack ceilings; `Message` carries the
/// text a quota hook aborted with; everything else keeps the engine's own
/// rendering.
#[verifier::external_body]
pub(crate) fn fault_of(err: gluon::Error) -> crate::outcome::EngineFault {
    match err {
        gluon::Error::VM(gluon::vm::Error::OutOfMemory { .. }) => EngineFault::MemoryLimit,
        gluon::Error::VM(gluon::vm::Error::StackOverflow(_)) => EngineFault::StackLimit,
        gluon::Error::VM(gluon::vm::Error::Message(message)) => EngineFault::Aborted { message },
        other => EngineFault::Other { message: format!("{}", other) },
    }
}

/// Relies on `gluon::import::add_extern_module` with
/// `gluon::vm::primitives::load`: registers the foundational primitives
/// under `name`.
#[verifier::external_body]
pub(crate) fn register_prim(vm: &gluon::RootedThread, name: &str) {
    gluon::import::add_extern_module(vm, name, gluon::vm::primitives::load);
}

/// Relies on `add_extern_module` with `gluon::vm::primitives::load_byte`.
#[verifier::external_body]
pub(crate) fn register_byte_prim(vm: &gluon::RootedThread, name: &str) {
    gluon::import::add_extern_module(vm, name, gluon::vm::primitives::load_byte);
}

/// Relies on `add_extern_module` with `gluon::vm::primitives::load_int`.
#[verifier::external_body]
pub(crate) fn register_int_prim(vm: &gluon::RootedThread, name: &str) {
    gluon::import::add_extern_module(vm, name, gluon::vm::primitives::load_int);
}

/// Relies on `add_extern_module` with `gluon::vm::primitives::load_float`.
#[verifier::external_body]
pub(crate) fn register_float_prim(vm: &gluon::RootedThread, name: &str) {
    gluon::import::add_extern_module(vm, name, gluon::vm::primitives::load_float);
}

/// Relies on `add_extern_module` with `gluon::vm::primitives::load_string`.
#[verifier::external_body]
pub(crate) fn register_string_prim(vm: &gluon::RootedThread, name: &str) {
    gluon::import::add_extern_module(vm, name, gluon::vm::primitives::load_string);
}

/// Relies on `add_extern_module` with `gluon::vm::primitives::load_fs`.
#[verifier::external_body]
pub(crate) fn register_fs_prim(vm: &gluon::RootedThread, name: &str) {
    gluon::import::add_extern_module(vm, name, gluon::vm::primitives::load_fs);
}

/// Relies on `add_extern_module` with `gluon::vm::primitives::load_path`.
#[verifier::external_body]
pub(crate) fn register_path_prim(vm: &gluon::RootedThread, name: &str) {
    gluon::import::add_extern_module(vm, name, gluon::vm::primitives::load_path);
}

/// Relies on `add_extern_module` with `gluon::vm::primitives::load_char`.
#[verifier::external_body]
pub(crate) fn register_char_prim(vm: &gluon::RootedThread, name: &str) {
    gluon::import::add_extern_module(vm, name, gluon::vm::primitives::load_char);
}

/// Relies on `add_extern_module` with `gluon::vm::primitives::load_array`.
#[verifier::external_body]
pub(crate) fn register_array_prim(vm: &gluon::RootedThread, name: &str) {
    gluon::import::add_extern_module(vm, name, gluon::vm::primitives::load_array);
}

/// Relies on `add_extern_module` with `gluon::vm::lazy::load`.
#[verifier::external_body]
pub(crate) fn register_lazy_prim(vm: &gluon::RootedThread, name: &str) {
    gluon::import::add_extern_module(vm, name, gluon::vm::lazy::load);
}

/// Relies on `add_extern_module` with `gluon::vm::reference::load`.
#[verifier::external_body]
pub(crate) fn register_reference_prim(vm: &gluon::RootedThread, name: &str) {
    gluon::import::add_extern_module(vm, name, gluon::vm::reference::load);
}

/// Relies on `add_extern_module` with `gluon::std_lib::io::load`: the
/// io-capable module, registered last.
#[verifier::external_body]
pub(crate) fn register_io_prim(vm: &gluon::RootedThread, name: &str) {
    gluon::import::add_extern_module(vm, name, gluon::std_lib::io::load);
}

/// Relies on `add_extern_module` with `gluon::std_lib::process::load`: the
/// process-spawning module, registered only when the capability set enables
/// it.
#[verifier::external_body]
pub(crate) fn register_process_prim(vm: &gluon::RootedThread, name: &str) {
    gluon::import::add_extern_module(vm, name, gluon::std_lib::process::load);
}

/// Relies on `add_extern_module` with `gluon::vm::api::json::load`.
#[verifier::external_body]
pub(crate) fn register_json_prim(vm: &gluon::RootedThread, name: &str) {
    gluon::import::add_extern_module(vm, name, gluon::vm::api::json::load);
}

} // verus!
