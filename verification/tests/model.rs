//! Tests of the orchestrator's data model: quotas, rendering, session
//! isolation, routing, header merging, and lockfile version selection.

use try_gluon::docs::{self, LockPackage};
use try_gluon::factory::{BackendVariant, CapabilitySet, PrimitiveLoader};
use try_gluon::gateway::{self, Gist};
use try_gluon::multiplexer::Multiplexer;
use try_gluon::outcome::{fault_message, outcome_of_run, EngineFault, EvalOutcome};
use try_gluon::quota::{wall_clock_expired, Quota, Safepoint, SessionMeter};
use try_gluon::render::{format_value, render_value, EmptyEnv, Value};
use try_gluon::sandbox::wall_clock_message;
use try_gluon::session::SessionContext;
use try_gluon::text::{str_contains, str_eq, suffix_after_last};

#[test]
fn default_quota_ceilings() {
    let q = Quota::default_quota();
    assert_eq!(q.memory_ceiling_bytes, 2_000_000);
    assert_eq!(q.stack_ceiling_frames, 10_000);
    assert_eq!(q.wall_clock_ceiling_ms, 10_000);
}

#[test]
fn memory_counter_admits_up_to_ceiling() {
    let q = Quota {
        memory_ceiling_bytes: 100,
        stack_ceiling_frames: 10,
        wall_clock_ceiling_ms: 1_000,
    };
    let mut m = SessionMeter::new(q);
    assert!(m.charge_allocation(60));
    assert!(m.charge_allocation(40));
    assert_eq!(m.memory_in_use, 100);
    assert!(!m.charge_allocation(1));
    assert_eq!(m.memory_in_use, 100);
    m.release_allocation(50);
    assert!(m.charge_allocation(30));
    assert_eq!(m.memory_in_use, 80);
}

#[test]
fn stack_counter_admits_up_to_ceiling() {
    let q = Quota {
        memory_ceiling_bytes: 100,
        stack_ceiling_frames: 2,
        wall_clock_ceiling_ms: 1_000,
    };
    let mut m = SessionMeter::new(q);
    assert!(m.enter_call());
    assert!(m.enter_call());
    assert!(!m.enter_call());
    assert_eq!(m.call_depth, 2);
    m.leave_call();
    assert!(m.enter_call());
}

#[test]
fn wall_clock_decision_is_exact() {
    assert!(!wall_clock_expired(0, 10_000));
    assert!(!wall_clock_expired(9_999, 10_000));
    assert!(wall_clock_expired(10_000, 10_000));
    assert!(wall_clock_expired(10_001, 10_000));
}

#[test]
fn safepoint_budget_rearms() {
    let mut s = Safepoint::new(3);
    assert!(!s.tick());
    assert!(!s.tick());
    assert!(s.tick());
    assert_eq!(s.remaining, 3);
    assert!(!s.tick());
}

#[test]
fn wall_clock_message_text() {
    assert_eq!(wall_clock_message(), "execution time exceeded");
}

#[test]
fn fault_messages_are_canonical() {
    assert_eq!(fault_message(EngineFault::MemoryLimit), "memory limit exceeded");
    assert_eq!(fault_message(EngineFault::StackLimit), "stack limit exceeded");
    assert_eq!(
        fault_message(EngineFault::Aborted { message: String::from("execution time exceeded") }),
        "execution time exceeded"
    );
    assert_eq!(
        fault_message(EngineFault::Other { message: String::from("parse error") }),
        "parse error"
    );
}

#[test]
fn outcome_renders_value_and_type() {
    let o = outcome_of_run(Ok((String::from("3"), String::from("Int"))));
    assert_eq!(o.render_text(), "3 : Int");
    let d = outcome_of_run(Err(EngineFault::MemoryLimit));
    assert_eq!(d.render_text(), "memory limit exceeded");
}

fn nested_record(depth: usize) -> Value {
    let mut v = Value::Atom(String::from("1"));
    for _ in 0..depth {
        v = Value::Record(vec![(String::from("f"), v)]);
    }
    v
}

#[test]
fn rendering_truncates_at_the_bound() {
    // a record nested 20 levels deep truncates at depth 6 with a placeholder
    let v = nested_record(20);
    let rendered = render_value(&v, 6);
    assert_eq!(
        rendered,
        "{ f = { f = { f = { f = { f = { f = .. } } } } } }"
    );
}

#[test]
fn rendering_shows_everything_under_the_bound() {
    let v = nested_record(5);
    let rendered = render_value(&v, 6);
    assert_eq!(rendered, "{ f = { f = { f = { f = { f = 1 } } } } }");
}

#[test]
fn rendering_joins_arrays_and_constructors() {
    let v = Value::Array(vec![
        Value::Atom(String::from("1")),
        Value::Apply(String::from("Some"), vec![Value::Atom(String::from("2"))]),
    ]);
    assert_eq!(render_value(&v, 6), "[1, Some 2]");
}

#[test]
fn format_value_appends_the_type() {
    let v = Value::Atom(String::from("3"));
    assert_eq!(format_value(&v, "Int", 6), "3 : Int");
}

#[test]
fn empty_environment_resolves_nothing() {
    let env = EmptyEnv;
    assert!(env.find_kind("Int").is_none());
    assert!(env.find_type("x").is_none());
    assert!(env.find_type_info("Option").is_none());
    assert!(env.find_record(&vec![String::from("x")]).is_none());
}

#[test]
fn concurrent_sessions_see_only_their_own_binding() {
    // session A: x = 1; session B: x = 2; both see only their own
    let base = vec![(String::from("y"), Value::Atom(String::from("0")))];
    let mut a = SessionContext::derive(&base);
    let mut b = SessionContext::derive(&base);
    a.define(String::from("x"), Value::Atom(String::from("1")));
    b.define(String::from("x"), Value::Atom(String::from("2")));
    match a.lookup("x") {
        Some(Value::Atom(s)) => assert_eq!(s, "1"),
        _ => panic!("session A must see its own binding"),
    }
    match b.lookup("x") {
        Some(Value::Atom(s)) => assert_eq!(s, "2"),
        _ => panic!("session B must see its own binding"),
    }
    // the shared base is untouched and still visible to both
    match a.lookup("y") {
        Some(Value::Atom(s)) => assert_eq!(s, "0"),
        _ => panic!("base binding must stay visible"),
    }
    assert!(b.lookup("z").is_none());
}

#[test]
fn local_binding_shadows_base() {
    let base = vec![(String::from("x"), Value::Atom(String::from("0")))];
    let mut s = SessionContext::derive(&base);
    s.define(String::from("x"), Value::Atom(String::from("9")));
    match s.lookup("x") {
        Some(Value::Atom(t)) => assert_eq!(t, "9"),
        _ => panic!("local definition must shadow the base"),
    }
}

#[test]
fn routing_unregistered_variant_is_unavailable() {
    let mux = Multiplexer::new();
    let q = Quota::default_quota();
    match mux.route_eval(BackendVariant::Stable, &q, "1 + 2") {
        EvalOutcome::Diagnostic { message } => assert_eq!(message, "backend unavailable"),
        _ => panic!("an unregistered variant must be unavailable"),
    }
    match mux.route_format(BackendVariant::Master, "1 + 2") {
        Err(message) => assert_eq!(message, "backend unavailable"),
        Ok(_) => panic!("an unregistered variant must be unavailable"),
    }
}

#[test]
fn stable_registry_omits_process_when_restricted() {
    let caps = CapabilitySet::restricted();
    let mods = try_gluon::factory::variant_modules(BackendVariant::Stable, &caps);
    let names: Vec<&str> = mods.iter().map(|m| m.name.as_str()).collect();
    assert_eq!(
        names,
        vec![
            "std.prim",
            "std.byte.prim",
            "std.int.prim",
            "std.float.prim",
            "std.string.prim",
            "std.fs.prim",
            "std.path.prim",
            "std.char.prim",
            "std.array.prim",
            "std.lazy.prim",
            "std.reference.prim",
            "std.io.prim",
            "std.json.prim",
        ]
    );
    assert!(mods.iter().all(|m| !matches!(m.loader, PrimitiveLoader::Process)));
}

#[test]
fn stable_registry_includes_process_only_when_enabled() {
    let caps = CapabilitySet { allow_process_primitives: true };
    let mods = try_gluon::factory::variant_modules(BackendVariant::Stable, &caps);
    assert!(mods.iter().any(|m| m.name == "std.process.prim"));
}

#[test]
fn master_registry_names() {
    let caps = CapabilitySet::restricted();
    let mods = try_gluon::factory::variant_modules(BackendVariant::Master, &caps);
    let names: Vec<&str> = mods.iter().map(|m| m.name.as_str()).collect();
    assert_eq!(
        names,
        vec![
            "std.prim",
            "std.int.prim",
            "std.float.prim",
            "std.string.prim",
            "std.char.prim",
            "std.array.prim",
            "std.lazy",
            "std.reference",
            "std.io.prim",
        ]
    );
}

#[test]
fn host_module_names() {
    assert_eq!(BackendVariant::Stable.host_module_name(), "gluon.try");
    assert_eq!(BackendVariant::Master.host_module_name(), "gluon.try.master");
}

#[test]
fn merge_headers_joins_duplicates_with_commas() {
    let pairs = vec![
        (String::from("set-cookie"), String::from("a=1")),
        (String::from("content-type"), String::from("text/html")),
        (String::from("set-cookie"), String::from("b=2")),
        (String::from("set-cookie"), String::from("c=3")),
    ];
    let merged = gateway::merge_header_values(&pairs);
    assert_eq!(merged.len(), 2);
    assert_eq!(merged[0].0, "set-cookie");
    assert_eq!(merged[0].1, "a=1,b=2,c=3");
    assert_eq!(merged[1].0, "content-type");
    assert_eq!(merged[1].1, "text/html");
}

#[test]
fn merge_headers_keeps_distinct_keys() {
    let pairs = vec![
        (String::from("a"), String::from("1")),
        (String::from("b"), String::from("2")),
    ];
    let merged = gateway::merge_header_values(&pairs);
    assert_eq!(merged.len(), 2);
    assert_eq!(merged[0].1, "1");
    assert_eq!(merged[1].1, "2");
}

#[test]
fn empty_request_fields_are_absent() {
    assert!(gateway::empty_to_none(Some(String::new())).is_none());
    assert_eq!(
        gateway::empty_to_none(Some(String::from("x"))),
        Some(String::from("x"))
    );
    assert!(gateway::empty_to_none(None).is_none());
}

#[test]
fn share_request_payload() {
    let gist = Gist { code: "let x = 1\nx" };
    let req = gateway::share_request(&gist);
    assert_eq!(req.description, "Gluon code shared from try_gluon");
    assert!(req.public);
    assert_eq!(req.file_name, "try_gluon.glu");
    assert_eq!(req.content, "let x = 1\nx");
    let answer = gateway::PostGist {
        id: String::from("1"),
        html_url: String::from("https://gists.example/1"),
    };
    assert_eq!(answer.id, "1");
    assert_eq!(answer.html_url, "https://gists.example/1");
}

fn sample_packages() -> Vec<LockPackage> {
    vec![
        LockPackage {
            name: String::from("serde"),
            version: String::from("1.0.1"),
            source: Some(String::from(
                "registry+https://github.com/rust-lang/crates.io-index",
            )),
        },
        LockPackage {
            name: String::from("gluon"),
            version: String::from("0.17.2"),
            source: Some(String::from(
                "git+https://github.com/gluon-lang/gluon#0123456789abcdef",
            )),
        },
        LockPackage {
            name: String::from("gluon"),
            version: String::from("0.16.1"),
            source: Some(String::from(
                "registry+https://github.com/rust-lang/crates.io-index",
            )),
        },
    ]
}

#[test]
fn lockfile_git_revision_is_the_fragment() {
    let packages = sample_packages();
    assert_eq!(
        docs::git_master_version(&packages),
        Some(String::from("0123456789abcdef"))
    );
}

#[test]
fn lockfile_registry_version() {
    let packages = sample_packages();
    assert_eq!(docs::crates_io_version(&packages), Some(String::from("0.16.1")));
}

#[test]
fn lockfile_without_gluon_yields_nothing() {
    let packages = vec![LockPackage {
        name: String::from("serde"),
        version: String::from("1.0.1"),
        source: None,
    }];
    assert!(docs::git_master_version(&packages).is_none());
    assert!(docs::crates_io_version(&packages).is_none());
}

#[test]
fn source_cache_patterns() {
    assert_eq!(
        docs::gluon_git_pattern("/home/user/.cargo", "0123456789abcdef"),
        "/home/user/.cargo/git/checkouts/gluon-*/0123456"
    );
    assert_eq!(
        docs::gluon_crates_io_pattern("/home/user/.cargo", "0.16.1"),
        "/home/user/.cargo/registry/src/*/gluon-0.16.1/"
    );
}

#[test]
fn doc_build_configuration() {
    assert_eq!(docs::doc_output_dir(BackendVariant::Master), "target/dist/doc/nightly");
    assert_eq!(docs::doc_output_dir(BackendVariant::Stable), "target/dist/doc/crates_io");
    assert_eq!(
        docs::gluon_src_url("0123456789abcdef"),
        "https://github.com/gluon-lang/gluon/blob/0123456789abcdef"
    );
    let args = docs::book_build_args("book", "/tmp/out/book");
    assert_eq!(args, vec!["build", "--dest-dir", "/tmp/out/book", "book"]);
}

#[test]
fn text_helpers() {
    assert!(str_eq("abc", "abc"));
    assert!(!str_eq("abc", "abd"));
    assert!(!str_eq("abc", "ab"));
    assert!(str_contains("git+https://example#x", "git"));
    assert!(!str_contains("registry", "git"));
    assert!(str_contains("anything", ""));
    assert_eq!(suffix_after_last("a#b#c", '#'), "c");
    assert_eq!(suffix_after_last("abc", '#'), "abc");
    assert_eq!(suffix_after_last("abc#", '#'), "");
}
