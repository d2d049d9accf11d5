//! The per-session binding model: each session derives a private context
//! from a shared, immutable base environment.  The base bindings are shared
//! by reference; a definition made inside a session lands in that session's
//! own locals, so no session can ever observe another session's bindings.

use vstd::prelude::*;
use crate::render::Value;
use crate::text;

verus! {

/// The binding a name resolves to in `bindings`, later definitions
/// shadowing earlier ones.
pub open spec fn spec_find(bindings: Seq<(String, Value)>, name: Seq<char>) -> Option<Value>
    decreases bindings.len(),
{
    if bindings.len() == 0 {
        None
    } else if bindings.last().0@ == name {
        Some(bindings.last().1)
    } else {
        spec_find(bindings.drop_last(), name)
    }
}

/// What a session sees for `name`: its own locals first, the shared base
/// bindings only when no local definition shadows them.
pub open spec fn spec_session_lookup(
    base: Seq<(String, Value)>,
    locals: Seq<(String, Value)>,
    name: Seq<char>,
) -> Option<Value> {
    match spec_find(locals, name) {
        Some(v) => Some(v),
        None => spec_find(base, name),
    }
}

/// One session's view of the bindings: the shared base by reference, and
/// the session's private definitions on top (copy-on-write: defining a name
/// writes only here, never into the base).
pub struct SessionContext<'a> {
    /// The shared, immutable base bindings.
    pub base: &'a Vec<(String, Value)>,
    /// This session's own definitions.
    pub locals: Vec<(String, Value)>,
}

impl<'a> SessionContext<'a> {
    /// What this session sees for `name`.
    pub open spec fn spec_lookup(self, name: Seq<char>) -> Option<Value> {
        spec_session_lookup(self.base@, self.locals@, name)
    }

    /// Derives a fresh session context from the base: no local definitions
    /// yet, base shared untouched.
    pub fn derive(base: &'a Vec<(String, Value)>) -> (s: SessionContext<'a>)
        ensures
            s.base == base,
            s.locals@ == Seq::<(String, Value)>::empty(),
    {
        SessionContext { base, locals: Vec::new() }
    }

    /// Defines a binding in this session alone: the definition shadows any
    /// earlier one for the same name, and the shared base is untouched.
    pub fn define(&mut self, name: String, value: Value)
        ensures
            final(self).base == old(self).base,
            final(self).locals@ == old(self).locals@.push((name, value)),
    {
        self.locals.push((name, value));
    }

    /// Finds the most recent binding for `name` in `bindings`, if any.
    fn find_in<'b>(bindings: &'b Vec<(String, Value)>, name: &str) -> (r: Option<&'b Value>)
        ensures
            match r {
                Some(v) => spec_find(bindings@, name@) == Some(*v),
                None => spec_find(bindings@, name@) is None,
            },
    {
        let mut j: usize = bindings.len();
        proof {
            assert(bindings@.subrange(0, bindings@.len() as int) =~= bindings@);
        }
        while j > 0
            invariant
                j <= bindings@.len(),
                spec_find(bindings@, name@) == spec_find(bindings@.subrange(0, j as int), name@),
            decreases j,
        {
            proof {
                assert(bindings@.subrange(0, j as int).last() == bindings@[j - 1]);
                assert(bindings@.subrange(0, j as int).drop_last() =~= bindings@.subrange(
                    0,
                    j - 1,
                ));
            }
            if text::str_eq(bindings[j - 1].0.as_str(), name) {
                return Some(&bindings[j - 1].1);
            }
            j = j - 1;
        }
        proof {
            assert(bindings@.subrange(0, 0) =~= Seq::<(String, Value)>::empty());
        }
        None
    }

    /// What this session sees for `name`: its own definition if it made
    /// one, else the shared base's, else nothing.
    pub fn lookup<'b>(&'b self, name: &str) -> (r: Option<&'b Value>)
        ensures
            match r {
                Some(v) => self.spec_lookup(name@) == Some(*v),
                None => self.spec_lookup(name@) is None,
            },
    {
        match Self::find_in(&self.locals, name) {
            Some(v) => Some(v),
            None => Self::find_in(self.base, name),
        }
    }
}

/// Session isolation: two sessions derived from one base that define the
/// same name with different values each observe only their own value —
/// defining a binding writes into that session's locals alone, so neither
/// session's definition is visible to the other, whatever the base holds.
pub proof fn lemma_sessions_isolated(
    base: Seq<(String, Value)>,
    name: String,
    v1: Value,
    v2: Value,
)
    ensures
        spec_session_lookup(base, seq![(name, v1)], name@) == Some(v1),
        spec_session_lookup(base, seq![(name, v2)], name@) == Some(v2),
{
    assert(seq![(name, v1)].last() == (name, v1));
    assert(seq![(name, v2)].last() == (name, v2));
}

} // verus!
