//! Per-request isolated execution: one sandbox per submission, derived from
//! a shared base environment, destroyed unconditionally when the request
//! ends.
//!
//! A sandbox owns a private engine thread (its own stack and heap, bindings
//! shared from the base environment copy-on-write) and its own quota
//! counters.  The memory and stack ceilings are installed on the thread at
//! derivation; the engine checks them from inside the evaluation, so a
//! breach aborts the submission and never the host.  The wall-clock check is
//! cooperative too: [`crate::quota::wall_clock_expired`] answers each
//! safepoint poll, and [`crate::outcome::EngineFault::Aborted`] carries the
//! message of a poll that aborted — see [`wall_clock_message`].  Every
//! failure, whatever its origin, is converted into a diagnostic at this
//! boundary.

use vstd::prelude::*;
use crate::engine;
use crate::outcome::{EngineFault, EvalOutcome};
use crate::quota::{Quota, SessionMeter};
use crate::render;

verus! {

/// The message a wall-clock safepoint aborts an overdue evaluation with.
pub fn wall_clock_message() -> (r: String)
    ensures
        r@ == "execution time exceeded"@,
{
    String::from_str("execution time exceeded")
}

/// One ephemeral evaluation session: a private engine thread with quota
/// counters, used for exactly one submission.
pub struct SessionSandbox {
    /// The session's private engine thread.
    pub thread: gluon::RootedThread,
    /// The ceilings this session runs under.
    pub quota: Quota,
    /// The session's live quota counters.
    pub meter: SessionMeter,
}

impl SessionSandbox {
    /// Derives a fresh session from a base environment's thread: a private
    /// heap and stack sharing the base bindings, with the memory and stack
    /// ceilings of `quota` installed before anything runs.  A failure to
    /// derive is itself a diagnostic, not a fault.
    pub fn derive(base: &gluon::Thread, quota: Quota) -> (r: Result<SessionSandbox, EvalOutcome>)
        ensures
            r matches Ok(s) ==> {
                &&& s.quota == quota
                &&& s.meter.wf()
                &&& s.meter.quota == quota
                &&& s.meter.memory_in_use == 0
                &&& s.meter.call_depth == 0
            },
            r matches Err(o) ==> o is Diagnostic,
    {
        match engine::new_session_thread(base) {
            Ok(thread) => {
                engine::set_memory_ceiling(engine::thread_ref(&thread), quota.memory_ceiling_bytes);
                engine::set_stack_ceiling(engine::thread_ref(&thread), quota.stack_ceiling_frames);
                Ok(SessionSandbox { thread, quota, meter: SessionMeter::new(quota) })
            },
            Err(e) => Err(
                EvalOutcome::Diagnostic { message: engine::vm_error_message(&e) },
            ),
        }
    }

    /// The session's engine thread, for a host that installs the wall-clock
    /// safepoint on it before running.
    pub fn engine_thread(&self) -> &gluon::Thread {
        engine::thread_ref(&self.thread)
    }

    /// Runs one submission to completion and converts whatever came back
    /// into the uniform outcome: the rendered value and type on success, a
    /// diagnostic for every failure.  Consumes the sandbox: a session is
    /// never reused across requests.
    pub fn run(self, source: &str) -> (o: EvalOutcome) {
        let run = engine::run_rendered(
            engine::thread_ref(&self.thread),
            "<top>",
            source,
            render::DEFAULT_RENDER_DEPTH,
        );
        let classified: Result<(String, String), EngineFault> = match run {
            Ok(texts) => Ok(texts),
            Err(e) => Err(engine::fault_of(e)),
        };
        crate::outcome::outcome_of_run(classified)
    }
}

/// Evaluates one submission against a base environment under `quota`:
/// derives a fresh sandbox, runs the submission, and returns the uniform
/// outcome.  Nothing a submission does propagates past this call.
pub fn evaluate(base: &gluon::Thread, quota: &Quota, source: &str) -> (o: EvalOutcome) {
    match SessionSandbox::derive(base, *quota) {
        Ok(sandbox) => sandbox.run(source),
        Err(diagnostic) => diagnostic,
    }
}

/// Evaluates `body` under the default quota and renders the outcome as one
/// line of text.  Always returns `Ok`: an interpreter-level failure is
/// reported in the text, never as an error of this call.
pub fn eval(global_vm: &gluon::Thread, body: &str) -> (r: Result<String, String>)
    ensures
        r is Ok,
{
    let quota = Quota::default_quota();
    let outcome = evaluate(global_vm, &quota, body);
    Ok(outcome.render_text())
}

/// Pretty-prints `input` without executing it: a pure syntactic transform.
/// A parse failure is reported as the error text.
pub fn format_expr(thread: &gluon::Thread, input: &str) -> Result<String, String> {
    match engine::format_source_call(thread, "try", input) {
        Ok(text) => Ok(text),
        Err(e) => Err(engine::error_message(&e)),
    }
}

} // verus!
