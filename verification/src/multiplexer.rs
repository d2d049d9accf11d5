//! The backend multiplexer: routes a (variant, request) pair to the matching
//! base environment, and isolates variant failures from each other.
//!
//! Each variant's slot holds either its published base environment or the
//! record of its bootstrap failure.  Routing consults only the addressed
//! variant's slot, so one variant's failure never blocks requests to a
//! healthy one, and a request to an unregistered or failed variant is
//! answered with a diagnostic, never a propagated fault.

use vstd::prelude::*;
use crate::factory::{self, BackendVariant, BaseEnvironment, CapabilitySet, FactoryError};
use crate::outcome::EvalOutcome;
use crate::quota::Quota;
use crate::sandbox;

verus! {

/// The state of one variant's backing: bootstrapped and serving, or failed
/// to bootstrap and marked unavailable.
pub enum BackendSlot {
    Ready(BaseEnvironment),
    Failed(FactoryError),
}

/// The registry from variant to backing environment.
pub struct Multiplexer {
    pub stable: Option<BackendSlot>,
    pub master: Option<BackendSlot>,
}

impl Multiplexer {
    /// The slot the given variant routes to.
    pub open spec fn spec_slot(self, variant: BackendVariant) -> Option<BackendSlot> {
        match variant {
            BackendVariant::Stable => self.stable,
            BackendVariant::Master => self.master,
        }
    }

    /// A variant serves requests only when its slot holds a published
    /// environment.
    pub open spec fn spec_available(self, variant: BackendVariant) -> bool {
        self.spec_slot(variant) matches Some(BackendSlot::Ready(_))
    }

    /// An empty registry: every variant is unregistered.
    pub fn new() -> (m: Multiplexer)
        ensures
            m.stable is None,
            m.master is None,
    {
        Multiplexer { stable: None, master: None }
    }

    /// Stores a slot for one variant, leaving every other variant's slot
    /// untouched.
    pub fn register(&mut self, variant: BackendVariant, slot: BackendSlot)
        ensures
            final(self).spec_slot(variant) == Some(slot),
            forall|v: BackendVariant|
                v != variant ==> final(self).spec_slot(v) == old(self).spec_slot(v),
    {
        match variant {
            BackendVariant::Stable => {
                self.stable = Some(slot);
            },
            BackendVariant::Master => {
                self.master = Some(slot);
            },
        }
    }

    /// Lazily bootstraps one variant: the first call initializes it and
    /// stores the result — the environment, or the failure that marks the
    /// variant unavailable; later calls leave the registry exactly as it
    /// was, so all requests share the one bootstrap.  Initializing one
    /// variant never touches another variant's slot, and a slot that comes
    /// out ready holds a well-formed environment of this variant, gated by
    /// `caps`, with exactly the variant's module registry.
    pub fn ensure_variant(&mut self, variant: BackendVariant, caps: CapabilitySet)
        ensures
            final(self).spec_slot(variant) is Some,
            old(self).spec_slot(variant) is Some ==> *final(self) == *old(self),
            forall|v: BackendVariant|
                v != variant ==> final(self).spec_slot(v) == old(self).spec_slot(v),
            old(self).spec_slot(variant) is None ==> (final(self).spec_slot(variant)
                matches Some(BackendSlot::Ready(env)) ==> {
                &&& env.wf()
                &&& env.variant == variant
                &&& env.capabilities == caps
                &&& env.modules@.len() == factory::spec_variant_modules(variant, caps).len()
                &&& forall|i: int|
                    0 <= i < env.modules@.len() ==> (env.modules@[i].name@, env.modules@[i].loader)
                        == factory::spec_variant_modules(variant, caps)[i]
            }),
    {
        let present = match variant {
            BackendVariant::Stable => self.stable.is_some(),
            BackendVariant::Master => self.master.is_some(),
        };
        if !present {
            let slot = match factory::initialize(variant, caps) {
                Ok(env) => BackendSlot::Ready(env),
                Err(e) => BackendSlot::Failed(e),
            };
            self.register(variant, slot);
        }
    }

    /// The diagnostic every request to a missing or failed variant gets.
    fn unavailable() -> (o: EvalOutcome)
        ensures
            o matches EvalOutcome::Diagnostic { message } && message@ == "backend unavailable"@,
    {
        EvalOutcome::Diagnostic { message: String::from_str("backend unavailable") }
    }

    /// Routes an evaluation request: a registered, healthy variant evaluates
    /// the submission in a fresh sandbox under `quota`; an unregistered or
    /// failed variant answers `Diagnostic("backend unavailable")`, never a
    /// crash and never by consulting any other variant's slot.
    pub fn route_eval(&self, variant: BackendVariant, quota: &Quota, source: &str) -> (o:
        EvalOutcome)
        ensures
            !self.spec_available(variant) ==> (o matches EvalOutcome::Diagnostic { message }
                && message@ == "backend unavailable"@),
    {
        let slot = match variant {
            BackendVariant::Stable => &self.stable,
            BackendVariant::Master => &self.master,
        };
        match slot {
            Some(BackendSlot::Ready(env)) => sandbox::evaluate(env.engine_thread(), quota, source),
            _ => Self::unavailable(),
        }
    }

    /// Routes a formatting request: a registered, healthy variant
    /// pretty-prints the source without executing it; an unregistered or
    /// failed variant answers the same unavailability diagnostic text as an
    /// error.
    pub fn route_format(&self, variant: BackendVariant, source: &str) -> (r: Result<String, String>)
        ensures
            !self.spec_available(variant) ==> (r matches Err(m) && m@
                == "backend unavailable"@),
    {
        let slot = match variant {
            BackendVariant::Stable => &self.stable,
            BackendVariant::Master => &self.master,
        };
        match slot {
            Some(BackendSlot::Ready(env)) => sandbox::format_expr(env.engine_thread(), source),
            _ => Err(String::from_str("backend unavailable")),
        }
    }
}

} // verus!
