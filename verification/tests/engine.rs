//! End-to-end tests through the embedded interpreter: evaluation, quota
//! diagnostics, import restriction, formatting, and routing.

use try_gluon::factory::{self, BackendVariant, CapabilitySet};
use try_gluon::multiplexer::{BackendSlot, Multiplexer};
use try_gluon::outcome::EvalOutcome;
use try_gluon::quota::Quota;
use try_gluon::sandbox::{eval, evaluate, format_expr};

fn small_quota(memory: usize, stack: u32) -> Quota {
    Quota {
        memory_ceiling_bytes: memory,
        stack_ceiling_frames: stack,
        wall_clock_ceiling_ms: 10_000,
    }
}

#[test]
fn one_plus_two_renders_as_three_int() {
    // end-to-end: input `1 + 2` returns a Success rendering as "3 : Int"
    let vm = factory::make_eval_vm().unwrap();
    let out = eval(&vm, "1 + 2").unwrap();
    assert_eq!(out, "3 : Int");
}

#[test]
fn evaluate_returns_success_with_value_and_type() {
    let vm = factory::make_eval_vm().unwrap();
    let q = Quota::default_quota();
    match evaluate(&vm, &q, "1 + 2") {
        EvalOutcome::Success { value_text, type_text } => {
            assert_eq!(value_text, "3");
            assert_eq!(type_text, "Int");
        },
        EvalOutcome::Diagnostic { message } => panic!("unexpected diagnostic: {}", message),
    }
}

#[test]
fn parse_error_becomes_diagnostic() {
    let vm = factory::make_eval_vm().unwrap();
    let q = Quota::default_quota();
    match evaluate(&vm, &q, "1 +") {
        EvalOutcome::Diagnostic { message } => assert!(!message.is_empty()),
        EvalOutcome::Success { value_text, .. } => {
            panic!("a parse error must not succeed: {}", value_text)
        },
    }
}

#[test]
fn empty_submission_becomes_diagnostic() {
    let vm = factory::make_eval_vm().unwrap();
    let q = Quota::default_quota();
    match evaluate(&vm, &q, "") {
        EvalOutcome::Diagnostic { message } => assert!(!message.is_empty()),
        EvalOutcome::Success { .. } => panic!("an empty submission must not succeed"),
    }
}

#[test]
fn memory_growth_hits_the_memory_ceiling() {
    // a submission that grows memory is stopped by the memory quota, with
    // the canonical diagnostic, before the process is exhausted
    let vm = factory::make_eval_vm().unwrap();
    // load the prelude once under no pressure, so the ceiling below is hit
    // by the submission's own allocations
    eval(&vm, "1 + 2").unwrap();
    let q = small_quota(10, 10_000);
    match evaluate(&vm, &q, "[1, 2, 3, 4]") {
        EvalOutcome::Diagnostic { message } => {
            assert_eq!(message, "memory limit exceeded");
        },
        EvalOutcome::Success { .. } => panic!("the memory ceiling must hold"),
    }
}

#[test]
fn small_stack_ceiling_yields_canonical_diagnostic() {
    let vm = factory::make_eval_vm().unwrap();
    eval(&vm, "1 + 2").unwrap();
    let q = small_quota(2_000_000, 3);
    match evaluate(&vm, &q, "[1, 2, 3, 4]") {
        EvalOutcome::Diagnostic { message } => assert_eq!(message, "stack limit exceeded"),
        EvalOutcome::Success { .. } => panic!("the stack ceiling must hold"),
    }
}

#[test]
fn unbounded_recursion_hits_the_stack_ceiling() {
    // unconditional self-recursion is stopped by a quota with an "exceeded"
    // diagnostic instead of hanging or crashing the host
    let vm = factory::make_eval_vm().unwrap();
    let q = small_quota(2_000_000, 10_000);
    let started = std::time::Instant::now();
    match evaluate(&vm, &q, "rec let f x = 1 #Int+ f x in f 0") {
        EvalOutcome::Diagnostic { message } => {
            assert!(message.contains("exceeded"), "unexpected diagnostic: {}", message);
        },
        EvalOutcome::Success { .. } => panic!("unbounded recursion must not succeed"),
    }
    assert!(started.elapsed().as_secs() < 15);
}

#[test]
fn import_outside_registry_fails_stable() {
    // a submission may import only the registered primitive module set
    let vm = factory::make_eval_vm().unwrap();
    let q = Quota::default_quota();
    match evaluate(&vm, &q, "import! \"/etc/passwd\"") {
        EvalOutcome::Diagnostic { message } => assert!(!message.is_empty()),
        EvalOutcome::Success { .. } => panic!("a filesystem import must fail"),
    }
    match evaluate(&vm, &q, "import! not.a.module") {
        EvalOutcome::Diagnostic { message } => assert!(!message.is_empty()),
        EvalOutcome::Success { .. } => panic!("an unregistered import must fail"),
    }
}

#[test]
fn import_outside_registry_fails_master() {
    let env = factory::initialize(BackendVariant::Master, CapabilitySet::restricted()).unwrap_or_else(
        |e| panic!("master bootstrap failed: {}", e.message),
    );
    let q = Quota::default_quota();
    match evaluate(env.engine_thread(), &q, "import! \"../secret\"") {
        EvalOutcome::Diagnostic { message } => assert!(!message.is_empty()),
        EvalOutcome::Success { .. } => panic!("a filesystem import must fail"),
    }
}

#[test]
fn registered_import_resolves() {
    let vm = factory::make_eval_vm().unwrap();
    let q = Quota::default_quota();
    match evaluate(&vm, &q, "let int = import! std.int.prim in int.min_value") {
        EvalOutcome::Success { type_text, .. } => assert_eq!(type_text, "Int"),
        EvalOutcome::Diagnostic { message } => {
            panic!("a registered module must resolve: {}", message)
        },
    }
}

#[test]
fn resolve_import_follows_the_registry() {
    let env = factory::initialize(BackendVariant::Stable, CapabilitySet::restricted())
        .unwrap_or_else(|e| panic!("stable bootstrap failed: {}", e.message));
    assert!(env.resolve_import("std.prim").is_ok());
    assert!(env.resolve_import("std.io.prim").is_ok());
    match env.resolve_import("std.process.prim") {
        Err(message) => {
            assert_eq!(message, "import is restricted to the registered primitive modules")
        },
        Ok(_) => panic!("the restricted capability set registers no process module"),
    }
    assert!(env.resolve_import("/etc/passwd").is_err());
    assert!(env.search_paths.is_empty());
}

#[test]
fn format_source_is_idempotent_on_canonical_input() {
    // formatSource(formatSource(src)) == formatSource(src)
    let vm = factory::make_eval_vm().unwrap();
    let samples = [
        "let x = 1\nx\n",
        "let add2 l r = l + r\nadd2 1 2\n",
        "{ x = 1, y = \"a\" }\n",
    ];
    for src in samples {
        let once = format_expr(&vm, src).unwrap_or_else(|e| panic!("format failed: {}", e));
        let twice = format_expr(&vm, once.as_str())
            .unwrap_or_else(|e| panic!("reformat failed: {}", e));
        assert_eq!(once, twice);
    }
}

#[test]
fn format_source_rejects_unparsable_input() {
    let vm = factory::make_eval_vm().unwrap();
    match format_expr(&vm, "let = =") {
        Err(message) => assert!(!message.is_empty()),
        Ok(text) => panic!("unparsable input must not format: {}", text),
    }
}

#[test]
fn routing_reaches_the_registered_variant() {
    let mut mux = Multiplexer::new();
    mux.ensure_variant(BackendVariant::Stable, CapabilitySet::restricted());
    let q = Quota::default_quota();
    match mux.route_eval(BackendVariant::Stable, &q, "1 + 2") {
        EvalOutcome::Success { value_text, type_text } => {
            assert_eq!(value_text, "3");
            assert_eq!(type_text, "Int");
        },
        EvalOutcome::Diagnostic { message } => panic!("stable must serve: {}", message),
    }
    // the other variant was never bootstrapped and stays unavailable
    match mux.route_eval(BackendVariant::Master, &q, "1 + 2") {
        EvalOutcome::Diagnostic { message } => assert_eq!(message, "backend unavailable"),
        EvalOutcome::Success { .. } => panic!("an unregistered variant must be unavailable"),
    }
}

#[test]
fn failed_variant_does_not_block_healthy_one() {
    let mut mux = Multiplexer::new();
    mux.register(
        BackendVariant::Master,
        BackendSlot::Failed(try_gluon::factory::FactoryError {
            message: String::from("bootstrap failed"),
        }),
    );
    mux.ensure_variant(BackendVariant::Stable, CapabilitySet::restricted());
    let q = Quota::default_quota();
    match mux.route_eval(BackendVariant::Master, &q, "1 + 2") {
        EvalOutcome::Diagnostic { message } => assert_eq!(message, "backend unavailable"),
        EvalOutcome::Success { .. } => panic!("a failed variant must be unavailable"),
    }
    match mux.route_eval(BackendVariant::Stable, &q, "1 + 2") {
        EvalOutcome::Success { value_text, .. } => assert_eq!(value_text, "3"),
        EvalOutcome::Diagnostic { message } => {
            panic!("a failed sibling must not block stable: {}", message)
        },
    }
}

#[test]
fn route_format_pretty_prints() {
    let mut mux = Multiplexer::new();
    mux.ensure_variant(BackendVariant::Stable, CapabilitySet::restricted());
    match mux.route_format(BackendVariant::Stable, "let x =     1\nx\n") {
        Ok(text) => assert!(text.contains("let x = 1")),
        Err(message) => panic!("formatting must serve: {}", message),
    }
}
