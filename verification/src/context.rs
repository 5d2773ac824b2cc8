//! The policy context: one native filter handle, its lifecycle, and the
//! exact requests handed to the kernel facility.
//!
//! The facility's own calls (initialize, add a rule, load, release) are
//! made by an unverified embedding layer; the [`Context`] here decides
//! what to ask of the facility and interprets what the facility reported,
//! so that every decision and every translation is verified.  Each
//! operation therefore comes in two halves: a request half that yields
//! the primitive values to forward (or the checked failure that forbids
//! the call), and an outcome half that consumes the facility's status.

use vstd::prelude::*;
use crate::action::Action;
use crate::action::action_code_spec;
use crate::compare::Cmp;
use crate::error::SeccompError;
use crate::error::already_loaded_msg;
use crate::error::already_released_msg;
use crate::error::init_error_msg;
use crate::error::load_error_msg;
use crate::error::rule_error_msg;
use crate::rule::Rule;

verus! {

/// Where a context stands in its lifecycle.
#[derive(Debug, Clone, Copy, PartialEq, Eq, Structural)]
pub enum ContextState {
    /// The handle is held; rules may be added and the policy loaded.
    Active,
    /// The policy was successfully loaded.  Enforcement is irreversible,
    /// so further rule additions and loads are checked failures.
    Loaded,
    /// The handle was released.  Terminal: every operation is a checked
    /// failure, and the release is never to be performed again.
    Released,
}

/// One rule addition as the kernel facility expects it: the primitive
/// action code, the syscall number as the signed integer the facility
/// takes, and the comparison records to hand over unchanged.
#[derive(Debug, Clone)]
pub struct RuleRequest {
    /// The primitive code of the rule's action.
    pub action_code: u32,
    /// The syscall number, reduced to the facility's signed integer.
    pub syscall: i32,
    /// The comparison records, in the rule's order.
    pub comparators: Vec<Cmp>,
}

/// Ghost record of one rule the facility accepted.
pub struct AppliedRule {
    /// The syscall number as forwarded.
    pub syscall: i32,
    /// The primitive action code as forwarded.
    pub action_code: u32,
    /// The comparison records as forwarded.
    pub comparators: Seq<Cmp>,
}

/// The ghost record a successful addition of `rule` leaves behind.
pub open spec fn applied_of(rule: Rule) -> AppliedRule {
    AppliedRule {
        syscall: rule.syscall_nr as i32,
        action_code: action_code_spec(rule.action),
        comparators: rule.comparators@,
    }
}

/// Owns exactly one native filter handle and accumulates rules until a
/// single load.  The handle is held as an opaque address; the embedding
/// layer that actually performs the facility calls obtains every
/// primitive value from here and reports every status back, and must
/// perform the native release exactly when [`Context::release`] says so.
pub struct Context {
    handle: u64,
    default_action: Action,
    state: ContextState,
    applied: Ghost<Seq<AppliedRule>>,
}

impl Context {
    /// The address of the native filter handle.
    pub closed spec fn handle_spec(&self) -> u64 {
        self.handle
    }

    /// The default action fixed at construction.
    pub closed spec fn default_action_spec(&self) -> Action {
        self.default_action
    }

    /// Where the context stands in its lifecycle.
    pub closed spec fn state_spec(&self) -> ContextState {
        self.state
    }

    /// The rules the facility has accepted so far, in order.
    pub closed spec fn applied_spec(&self) -> Seq<AppliedRule> {
        self.applied@
    }

    /// Where the context stands in its lifecycle.
    pub fn state(&self) -> (s: ContextState)
        ensures
            s == self.state_spec(),
    {
        self.state
    }

    /// The address of the native filter handle, for the embedding layer's
    /// facility calls.
    pub fn raw_handle(&self) -> (h: u64)
        ensures
            h == self.handle_spec(),
    {
        self.handle
    }

    /// The default action fixed at construction.
    pub fn default_action(&self) -> (a: Action)
        ensures
            a == self.default_action_spec(),
    {
        self.default_action
    }

    /// Interpret the facility's answer to an initialization call made
    /// with the primitive code of `def_action`: `raw_handle` is the
    /// address the facility returned, with 0 (null) signalling failure.
    /// On success the context starts active, owning that handle, with no
    /// rules applied; on failure no context exists and the error says
    /// initialization failed.  Single attempt, no retry.
    pub fn default(def_action: Action, raw_handle: u64) -> (r: Result<Context, SeccompError>)
        ensures
            raw_handle != 0 ==> (r is Ok && r->Ok_0.handle_spec() == raw_handle
                && r->Ok_0.default_action_spec() == def_action
                && r->Ok_0.state_spec() == ContextState::Active
                && r->Ok_0.applied_spec() == Seq::<AppliedRule>::empty()),
            raw_handle == 0 ==> (r is Err && r->Err_0@ == init_error_msg()),
    {
        if raw_handle == 0 {
            Err(SeccompError::init_failure())
        } else {
            Ok(Context {
                handle: raw_handle,
                default_action: def_action,
                state: ContextState::Active,
                applied: Ghost(Seq::empty()),
            })
        }
    }

    /// The facility call that adding `rule` requires.  While the context
    /// is active this yields exactly the primitive values to forward:
    /// the rule's action code, its syscall number as the facility's
    /// signed integer, and its comparisons unchanged and in order.  After
    /// a load or a release no call may be made and this is a checked
    /// failure.  The caller's rule is only read, never consumed.
    pub fn rule_request(&self, rule: &Rule) -> (r: Result<RuleRequest, SeccompError>)
        ensures
            self.state_spec() == ContextState::Active ==> (r is Ok
                && r->Ok_0.action_code == action_code_spec(rule.action)
                && r->Ok_0.syscall == rule.syscall_nr as i32
                && r->Ok_0.comparators@ == rule.comparators@),
            self.state_spec() == ContextState::Loaded ==> (r is Err
                && r->Err_0@ == already_loaded_msg()),
            self.state_spec() == ContextState::Released ==> (r is Err
                && r->Err_0@ == already_released_msg()),
    {
        match self.state {
            ContextState::Active => {
                let comparators = rule.comparators.clone();
                proof {
                    assert(comparators@ =~= rule.comparators@);
                }
                Ok(RuleRequest {
                    action_code: rule.action.code(),
                    syscall: #[verifier::truncate] (rule.syscall_nr as i32),
                    comparators,
                })
            },
            ContextState::Loaded => Err(SeccompError::already_loaded()),
            ContextState::Released => Err(SeccompError::already_released()),
        }
    }

    /// Record the status the facility reported for the addition of
    /// `rule`.  Zero means the facility accepted the rule: it joins the
    /// applied record and the context stays active.  Any other status
    /// means the facility rejected it: the context — including every
    /// previously applied rule — is left exactly as it was, still active
    /// and usable, and the error names the rule's syscall number and
    /// action code.  After a load or a release this is a checked failure
    /// that changes nothing.
    pub fn add_rule_outcome(&mut self, rule: &Rule, status: i32) -> (r: Result<(), SeccompError>)
        ensures
            (old(self).state_spec() == ContextState::Active && status == 0) ==> (r is Ok
                && final(self).state_spec() == ContextState::Active
                && final(self).handle_spec() == old(self).handle_spec()
                && final(self).default_action_spec() == old(self).default_action_spec()
                && final(self).applied_spec() == old(self).applied_spec().push(applied_of(*rule))),
            (old(self).state_spec() == ContextState::Active && status != 0) ==> (r is Err
                && r->Err_0@ == rule_error_msg(rule.syscall_nr, rule.action)
                && *final(self) == *old(self)),
            old(self).state_spec() == ContextState::Loaded ==> (r is Err
                && r->Err_0@ == already_loaded_msg() && *final(self) == *old(self)),
            old(self).state_spec() == ContextState::Released ==> (r is Err
                && r->Err_0@ == already_released_msg() && *final(self) == *old(self)),
    {
        match self.state {
            ContextState::Active => {
                if status == 0 {
                    self.applied = Ghost(self.applied@.push(applied_of(*rule)));
                    Ok(())
                } else {
                    Err(SeccompError::rule_failure(rule.syscall_nr, rule.action))
                }
            },
            ContextState::Loaded => Err(SeccompError::already_loaded()),
            ContextState::Released => Err(SeccompError::already_released()),
        }
    }

    /// The facility call that loading requires: the handle to pass.
    /// After a load or a release no call may be made and this is a
    /// checked failure.
    pub fn load_request(&self) -> (r: Result<u64, SeccompError>)
        ensures
            self.state_spec() == ContextState::Active ==> (r is Ok
                && r->Ok_0 == self.handle_spec()),
            self.state_spec() == ContextState::Loaded ==> (r is Err
                && r->Err_0@ == already_loaded_msg()),
            self.state_spec() == ContextState::Released ==> (r is Err
                && r->Err_0@ == already_released_msg()),
    {
        match self.state {
            ContextState::Active => Ok(self.handle),
            ContextState::Loaded => Err(SeccompError::already_loaded()),
            ContextState::Released => Err(SeccompError::already_released()),
        }
    }

    /// Record the status the facility reported for the load.  Zero means
    /// the accumulated policy is compiled and enforced: the context
    /// becomes loaded, irreversibly for the process.  Any other status
    /// means no enforcement change is guaranteed: the context stays
    /// active, exactly as it was, and the error says the load failed.
    /// After a load or a release this is a checked failure that changes
    /// nothing.
    pub fn load_outcome(&mut self, status: i32) -> (r: Result<(), SeccompError>)
        ensures
            (old(self).state_spec() == ContextState::Active && status == 0) ==> (r is Ok
                && final(self).state_spec() == ContextState::Loaded
                && final(self).handle_spec() == old(self).handle_spec()
                && final(self).default_action_spec() == old(self).default_action_spec()
                && final(self).applied_spec() == old(self).applied_spec()),
            (old(self).state_spec() == ContextState::Active && status != 0) ==> (r is Err
                && r->Err_0@ == load_error_msg() && *final(self) == *old(self)),
            old(self).state_spec() == ContextState::Loaded ==> (r is Err
                && r->Err_0@ == already_loaded_msg() && *final(self) == *old(self)),
            old(self).state_spec() == ContextState::Released ==> (r is Err
                && r->Err_0@ == already_released_msg() && *final(self) == *old(self)),
    {
        match self.state {
            ContextState::Active => {
                if status == 0 {
                    self.state = ContextState::Loaded;
                    Ok(())
                } else {
                    Err(SeccompError::load_failure())
                }
            },
            ContextState::Loaded => Err(SeccompError::already_loaded()),
            ContextState::Released => Err(SeccompError::already_released()),
        }
    }

    /// Mark the handle released, and say whether the native release must
    /// now be performed.  The first call — and only the first — answers
    /// true and moves the context to its terminal state; every later
    /// call answers false and changes nothing, so the native handle is
    /// released exactly once over the context's lifetime, regardless of
    /// how many rules were added or whether loading was attempted.
    pub fn release(&mut self) -> (perform: bool)
        ensures
            old(self).state_spec() != ContextState::Released ==> (perform
                && final(self).state_spec() == ContextState::Released
                && final(self).handle_spec() == old(self).handle_spec()
                && final(self).default_action_spec() == old(self).default_action_spec()
                && final(self).applied_spec() == old(self).applied_spec()),
            old(self).state_spec() == ContextState::Released ==> (!perform
                && *final(self) == *old(self)),
    {
        match self.state {
            ContextState::Released => false,
            _ => {
                self.state = ContextState::Released;
                true
            },
        }
    }
}

} // verus!
