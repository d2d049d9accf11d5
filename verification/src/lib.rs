//! A sandboxed evaluation orchestrator for the Gluon interpreter.
//!
//! Untrusted callers submit source snippets and get back either a computed
//! value with its inferred type or a diagnostic — never a crash, a hang, or
//! an exhausted host.  The interpreter is embedded, shared in-process and not
//! preemptible from outside, so every limit is enforced cooperatively:
//! per-session quotas on memory, stack depth and wall-clock time, a
//! capability gate applied while an interpreter environment is bootstrapped,
//! and a multiplexer that routes requests across independently bootstrapped
//! backend variants.

pub mod docs;
pub mod engine;
pub mod factory;
pub mod gateway;
pub mod multiplexer;
pub mod outcome;
pub mod quota;
pub mod render;
pub mod sandbox;
pub mod session;
pub mod text;
