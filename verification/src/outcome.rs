//! The uniform result of one evaluation request, and the translation of
//! engine faults into diagnostics.
//!
//! Everything that goes wrong while running an untrusted submission — a parse
//! error, a type error, a runtime fault, a quota breach — is absorbed at the
//! session boundary and rendered as a `Diagnostic`, never propagated as a
//! fault of the host.

use vstd::prelude::*;

verus! {

/// The outcome of one evaluation: either a value with its inferred type,
/// or a diagnostic message.  Always textual.
pub enum EvalOutcome {
    Success { value_text: String, type_text: String },
    Diagnostic { message: String },
}

impl EvalOutcome {
    /// The single line of text shown to the caller.
    pub open spec fn spec_render_text(self) -> Seq<char> {
        match self {
            EvalOutcome::Success { value_text, type_text } => value_text@ + " : "@ + type_text@,
            EvalOutcome::Diagnostic { message } => message@,
        }
    }

    /// Renders a success as `"<value> : <type>"` and a diagnostic as its
    /// message.
    pub fn render_text(&self) -> (r: String)
        ensures
            r@ == self.spec_render_text(),
    {
        match self {
            EvalOutcome::Success { value_text, type_text } => {
                value_text.clone().concat(" : ").concat(type_text.as_str())
            },
            EvalOutcome::Diagnostic { message } => message.clone(),
        }
    }
}

/// How a run inside the engine failed, as classified at the session boundary.
///
/// The quota breaches get their own variants so that each is reported with
/// its canonical message; an abort raised by a quota hook carries the text
/// the hook was installed with; everything else (parse, type and runtime
/// errors) carries the engine's own rendering of the fault.
pub enum EngineFault {
    MemoryLimit,
    StackLimit,
    Aborted { message: String },
    Other { message: String },
}

/// The diagnostic text reported for each kind of engine fault.
pub open spec fn spec_fault_message(f: EngineFault) -> Seq<char> {
    match f {
        EngineFault::MemoryLimit => "memory limit exceeded"@,
        EngineFault::StackLimit => "stack limit exceeded"@,
        EngineFault::Aborted { message } => message@,
        EngineFault::Other { message } => message@,
    }
}

/// Renders the diagnostic text for one engine fault.
pub fn fault_message(f: EngineFault) -> (r: String)
    ensures
        r@ == spec_fault_message(f),
{
    match f {
        EngineFault::MemoryLimit => String::from_str("memory limit exceeded"),
        EngineFault::StackLimit => String::from_str("stack limit exceeded"),
        EngineFault::Aborted { message } => message,
        EngineFault::Other { message } => message,
    }
}

/// Converts what came back from the engine into the uniform outcome: a
/// successful run becomes `Success` with its two texts unchanged, and a
/// fault becomes `Diagnostic` with that fault's message.
pub fn outcome_of_run(run: Result<(String, String), EngineFault>) -> (o: EvalOutcome)
    ensures
        run matches Ok(texts) ==> o == (EvalOutcome::Success {
            value_text: texts.0,
            type_text: texts.1,
        }),
        run matches Err(f) ==> o matches EvalOutcome::Diagnostic { message }
            && message@ == spec_fault_message(f),
{
    match run {
        Ok(texts) => EvalOutcome::Success { value_text: texts.0, type_text: texts.1 },
        Err(f) => EvalOutcome::Diagnostic { message: fault_message(f) },
    }
}

} // verus!
