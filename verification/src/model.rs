//! A verified stand-in for the kernel filtering facility.
//!
//! The real facility lives in the kernel and cannot be observed from
//! here.  This model implements the same boundary — initialize, add a
//! rule, load, release — over plain values, together with a reference
//! evaluation of the compiled policy and a countable release observer,
//! so the request/outcome protocol of [`crate::Context`] can be
//! exercised and checked end to end.

use vstd::prelude::*;
use crate::compare::Cmp;
use crate::context::AppliedRule;
use crate::context::Context;
use crate::context::ContextState;
use crate::context::RuleRequest;
use crate::context::applied_of;
use crate::error::SeccompError;
use crate::op::Op;
use crate::rule::Rule;

verus! {

/// The number of argument slots a syscall carries at the filter
/// boundary.
pub const ARG_COUNT: usize = 6;

/// Whether comparison `c` holds of the syscall arguments `args`
/// (meaningful when `c.arg` indexes into `args`).  Masked equality
/// relates `(argument AND datum_b)` to `datum_a`; every other operator
/// relates the argument to `datum_a` directly.
pub open spec fn cmp_holds(c: Cmp, args: Seq<u64>) -> bool {
    let v = args[c.arg as int];
    match c.op {
        Op::Ne => v != c.datum_a,
        Op::Lt => v < c.datum_a,
        Op::Le => v <= c.datum_a,
        Op::Eq => v == c.datum_a,
        Op::Ge => v >= c.datum_a,
        Op::Gt => v > c.datum_a,
        Op::MaskedEq => (v & c.datum_b) == c.datum_a,
    }
}

/// Whether the rule recorded as `r` matches the syscall `nr` invoked
/// with arguments `args`: the syscall number is the rule's and every
/// comparison holds — comparisons are ANDed, so a rule without any
/// matches its syscall unconditionally, the facility's own convention.
pub open spec fn request_matches(r: RuleRequest, nr: i32, args: Seq<u64>) -> bool {
    r.syscall == nr && forall|i: int|
        0 <= i < r.comparators@.len() ==> cmp_holds(#[trigger] r.comparators@[i], args)
}

/// The action code the stand-in reports for syscall `nr` with
/// arguments `args` under the rule list `rules` and default code `def`:
/// the first matching rule's action, or the default when no rule
/// matches.
pub open spec fn eval_spec(rules: Seq<RuleRequest>, def: u32, nr: i32, args: Seq<u64>) -> u32
    decreases rules.len(),
{
    if rules.len() == 0 {
        def
    } else if request_matches(rules[0], nr, args) {
        rules[0].action_code
    } else {
        eval_spec(rules.drop_first(), def, nr, args)
    }
}

/// An in-memory filter: a default action code fixed at initialization,
/// the rules accepted so far in order, whether the policy was loaded,
/// and how many times release was invoked.
pub struct ModelFilter {
    default_code: u32,
    rules: Vec<RuleRequest>,
    loaded: bool,
    releases: u64,
}

impl ModelFilter {
    /// The default action code fixed at initialization.
    pub closed spec fn default_code_spec(&self) -> u32 {
        self.default_code
    }

    /// The rules accepted so far, in order of acceptance.
    pub closed spec fn rules_spec(&self) -> Seq<RuleRequest> {
        self.rules@
    }

    /// Whether the policy was loaded.
    pub closed spec fn loaded_spec(&self) -> bool {
        self.loaded
    }

    /// How many times release was invoked.
    pub closed spec fn releases_spec(&self) -> nat {
        self.releases as nat
    }

    /// Every accepted rule names a non-negative syscall and indexes only
    /// the existing argument slots.
    pub open spec fn wf(&self) -> bool {
        forall|i: int| 0 <= i < self.rules_spec().len() ==> {
            let r = #[trigger] self.rules_spec()[i];
            r.syscall >= 0 && forall|j: int|
                0 <= j < r.comparators@.len()
                    ==> (#[trigger] r.comparators@[j]).arg < ARG_COUNT
        }
    }

    /// Whether this filter would accept the rule addition `req`: no
    /// addition is accepted once the policy is loaded, the syscall
    /// number must be non-negative, and every comparison must index an
    /// existing argument slot.
    pub open spec fn accepts(&self, req: RuleRequest) -> bool {
        &&& !self.loaded_spec()
        &&& req.syscall >= 0
        &&& forall|j: int|
            0 <= j < req.comparators@.len()
                ==> (#[trigger] req.comparators@[j]).arg < ARG_COUNT
    }

    /// Initialize a fresh filter with the given default action code: no
    /// rules, nothing loaded, no release yet.  The stand-in never
    /// refuses to initialize.
    pub fn init(default_code: u32) -> (f: ModelFilter)
        ensures
            f.default_code_spec() == default_code,
            f.rules_spec() == Seq::<RuleRequest>::empty(),
            !f.loaded_spec(),
            f.releases_spec() == 0,
            f.wf(),
    {
        ModelFilter { default_code, rules: Vec::new(), loaded: false, releases: 0 }
    }

    /// One rule addition, atomically: status zero exactly when the rule
    /// is accepted, in which case it is appended to the accepted rules;
    /// a rejected rule leaves the filter — every previously accepted
    /// rule included — exactly as it was.
    pub fn rule_add(&mut self, req: RuleRequest) -> (status: i32)
        ensures
            old(self).accepts(req) ==> (status == 0
                && final(self).rules_spec() == old(self).rules_spec().push(req)),
            !old(self).accepts(req) ==> (status != 0 && *final(self) == *old(self)),
            final(self).default_code_spec() == old(self).default_code_spec(),
            final(self).loaded_spec() == old(self).loaded_spec(),
            final(self).releases_spec() == old(self).releases_spec(),
            old(self).wf() && old(self).accepts(req) ==> final(self).wf(),
    {
        if self.loaded || req.syscall < 0 {
            return -1;
        }
        let mut j: usize = 0;
        while j < req.comparators.len()
            invariant
                j <= req.comparators.len(),
                forall|k: int| 0 <= k < j ==> (#[trigger] req.comparators@[k]).arg < ARG_COUNT,
            decreases req.comparators.len() - j,
        {
            if req.comparators[j].arg >= ARG_COUNT as u32 {
                return -1;
            }
            j += 1;
        }
        self.rules.push(req);
        0
    }

    /// Compile and activate the accumulated policy: status zero on the
    /// first load; a second load is refused and changes nothing.
    pub fn load(&mut self) -> (status: i32)
        ensures
            !old(self).loaded_spec() ==> (status == 0 && final(self).loaded_spec()),
            old(self).loaded_spec() ==> (status != 0 && *final(self) == *old(self)),
            final(self).rules_spec() == old(self).rules_spec(),
            final(self).default_code_spec() == old(self).default_code_spec(),
            final(self).releases_spec() == old(self).releases_spec(),
    {
        if self.loaded {
            -1
        } else {
            self.loaded = true;
            0
        }
    }

    /// Release the filter, counting the invocation; everything else is
    /// untouched.  A correct owner invokes this exactly once.
    pub fn release(&mut self)
        requires
            old(self).releases_spec() < u64::MAX,
        ensures
            final(self).releases_spec() == old(self).releases_spec() + 1,
            final(self).rules_spec() == old(self).rules_spec(),
            final(self).default_code_spec() == old(self).default_code_spec(),
            final(self).loaded_spec() == old(self).loaded_spec(),
    {
        self.releases = self.releases + 1;
    }

    /// The release observer: how many times release was invoked.
    pub fn release_count(&self) -> (n: u64)
        ensures
            n == self.releases_spec(),
    {
        self.releases
    }

    /// The rules the facility received, in order of acceptance.
    pub fn received(&self) -> (v: &Vec<RuleRequest>)
        ensures
            v@ == self.rules_spec(),
    {
        &self.rules
    }

    /// Evaluate the loaded policy against one syscall invocation: the
    /// action code of the first accepted rule that matches, or the
    /// default action code when none does.
    pub fn evaluate(&self, nr: i32, args: &[u64; 6]) -> (code: u32)
        requires
            self.loaded_spec(),
            self.wf(),
        ensures
            code == eval_spec(self.rules_spec(), self.default_code_spec(), nr, args@),
    {
        let ghost all = self.rules_spec();
        let ghost def = self.default_code_spec();
        proof {
            assert(all.skip(0) =~= all);
        }
        let mut i: usize = 0;
        while i < self.rules.len()
            invariant
                i <= self.rules.len(),
                self.wf(),
                all == self.rules_spec(),
                def == self.default_code_spec(),
                eval_spec(all.skip(i as int), def, nr, args@) == eval_spec(all, def, nr, args@),
            decreases self.rules.len() - i,
        {
            proof {
                assert(all.skip(i as int)[0] == all[i as int]);
            }
            if request_matches_exec(&self.rules[i], nr, args) {
                return self.rules[i].action_code;
            }
            proof {
                assert(all.skip(i as int).drop_first() =~= all.skip(i as int + 1));
            }
            i += 1;
        }
        proof {
            assert(all.skip(i as int) =~= Seq::<RuleRequest>::empty());
        }
        self.default_code
    }
}

/// Whether comparison `c` holds of the arguments `args`.
fn cmp_holds_exec(c: &Cmp, args: &[u64; 6]) -> (b: bool)
    requires
        c.arg < ARG_COUNT,
    ensures
        b == cmp_holds(*c, args@),
{
    let v: u64 = args[c.arg as usize];
    match c.op {
        Op::Ne => v != c.datum_a,
        Op::Lt => v < c.datum_a,
        Op::Le => v <= c.datum_a,
        Op::Eq => v == c.datum_a,
        Op::Ge => v >= c.datum_a,
        Op::Gt => v > c.datum_a,
        Op::MaskedEq => (v & c.datum_b) == c.datum_a,
    }
}

/// Whether the ghost record `a` is exactly the received rule `r`.
pub open spec fn corresponds(a: AppliedRule, r: RuleRequest) -> bool {
    a.syscall == r.syscall && a.action_code == r.action_code && a.comparators == r.comparators@
}

/// Whether the rules the facility has accepted are, element for
/// element and in order, exactly the rules the context records as
/// applied.
pub open spec fn mirrors(ctx: Context, f: ModelFilter) -> bool {
    &&& ctx.applied_spec().len() == f.rules_spec().len()
    &&& forall|i: int| 0 <= i < f.rules_spec().len()
            ==> corresponds(ctx.applied_spec()[i], #[trigger] f.rules_spec()[i])
}

/// Whether the stand-in would accept the addition of `rule` as the
/// context encodes it.
pub open spec fn accepts_rule(f: ModelFilter, rule: Rule) -> bool {
    &&& !f.loaded_spec()
    &&& rule.syscall_nr as i32 >= 0
    &&& forall|j: int|
        0 <= j < rule.comparators@.len() ==> (#[trigger] rule.comparators@[j]).arg < ARG_COUNT
}

/// Drive one rule addition against the stand-in, as the embedding layer
/// drives the real facility: obtain the verified request, forward it,
/// and record the reported status.  An accepted rule extends the
/// context's applied record and the facility's rules alike, so a
/// mirroring pair stays mirrored; a rejected one — and likewise an
/// addition attempted after load or release — leaves both sides exactly
/// as they were, every previously accepted rule included.
pub fn add_rule_model(ctx: &mut Context, facility: &mut ModelFilter, rule: &Rule) -> (r: Result<
    (),
    SeccompError,
>)
    ensures
        (old(ctx).state_spec() == ContextState::Active && accepts_rule(*old(facility), *rule))
            ==> (r is Ok
            && final(ctx).applied_spec() == old(ctx).applied_spec().push(applied_of(*rule))
            && final(ctx).state_spec() == ContextState::Active
            && final(facility).rules_spec().len() == old(facility).rules_spec().len() + 1
            && (mirrors(*old(ctx), *old(facility)) ==> mirrors(*final(ctx), *final(facility)))),
        (old(ctx).state_spec() == ContextState::Active && !accepts_rule(*old(facility), *rule))
            ==> (r is Err && *final(ctx) == *old(ctx) && *final(facility) == *old(facility)),
        old(ctx).state_spec() != ContextState::Active ==> (r is Err && *final(ctx) == *old(ctx)
            && *final(facility) == *old(facility)),
        final(facility).loaded_spec() == old(facility).loaded_spec(),
        final(facility).releases_spec() == old(facility).releases_spec(),
{
    match ctx.rule_request(rule) {
        Err(e) => Err(e),
        Ok(req) => {
            let ghost req_ghost = req;
            let ghost applied_before = ctx.applied_spec();
            let ghost rules_before = facility.rules_spec();
            let status = facility.rule_add(req);
            let out = ctx.add_rule_outcome(rule, status);
            proof {
                if old(ctx).state_spec() == ContextState::Active
                    && accepts_rule(*old(facility), *rule) {
                    assert(old(facility).accepts(req_ghost));
                    assert(facility.rules_spec() == rules_before.push(req_ghost));
                    assert(corresponds(applied_of(*rule), req_ghost));
                    if mirrors(*old(ctx), *old(facility)) {
                        assert forall|i: int| 0 <= i < facility.rules_spec().len() implies corresponds(
                            ctx.applied_spec()[i],
                            #[trigger] facility.rules_spec()[i],
                        ) by {
                            if i < rules_before.len() {
                                assert(corresponds(applied_before[i], rules_before[i]));
                            }
                        }
                    }
                } else if old(ctx).state_spec() == ContextState::Active {
                    assert(!old(facility).accepts(req_ghost));
                }
            }
            out
        },
    }
}

/// Drive the load against the stand-in: ask the context for the load
/// request and report the facility's status back.  The first load of an
/// active context succeeds and is recorded on both sides; afterwards the
/// facility refuses and the context stays active, unchanged.  No load
/// ever touches the accepted rules or the applied record.
pub fn load_model(ctx: &mut Context, facility: &mut ModelFilter) -> (r: Result<(), SeccompError>)
    ensures
        (old(ctx).state_spec() == ContextState::Active && !old(facility).loaded_spec()) ==> (
        r is Ok && final(ctx).state_spec() == ContextState::Loaded
            && final(facility).loaded_spec()),
        (old(ctx).state_spec() == ContextState::Active && old(facility).loaded_spec()) ==> (
        r is Err && *final(ctx) == *old(ctx) && *final(facility) == *old(facility)),
        old(ctx).state_spec() != ContextState::Active ==> (r is Err && *final(ctx) == *old(ctx)
            && *final(facility) == *old(facility)),
        final(ctx).applied_spec() == old(ctx).applied_spec(),
        final(facility).rules_spec() == old(facility).rules_spec(),
        final(facility).releases_spec() == old(facility).releases_spec(),
        mirrors(*old(ctx), *old(facility)) ==> mirrors(*final(ctx), *final(facility)),
{
    match ctx.load_request() {
        Err(e) => Err(e),
        Ok(_) => {
            let status = facility.load();
            ctx.load_outcome(status)
        },
    }
}

/// Drive the release against the stand-in: the native release is
/// performed exactly when the verified lifecycle says to.  The first
/// release of a context reaches the facility's observer exactly once;
/// every later release reaches it not at all — so over a context's
/// whole lifetime the facility counts exactly one release.
pub fn release_model(ctx: &mut Context, facility: &mut ModelFilter)
    requires
        old(facility).releases_spec() < u64::MAX,
    ensures
        old(ctx).state_spec() != ContextState::Released ==> (final(ctx).state_spec()
            == ContextState::Released
            && final(facility).releases_spec() == old(facility).releases_spec() + 1),
        old(ctx).state_spec() == ContextState::Released ==> (*final(ctx) == *old(ctx)
            && *final(facility) == *old(facility)),
        final(facility).rules_spec() == old(facility).rules_spec(),
        final(facility).loaded_spec() == old(facility).loaded_spec(),
{
    if ctx.release() {
        facility.release();
    }
}

/// Whether the recorded rule `r` matches syscall `nr` with arguments
/// `args`.
fn request_matches_exec(r: &RuleRequest, nr: i32, args: &[u64; 6]) -> (b: bool)
    requires
        forall|j: int| 0 <= j < r.comparators@.len()
            ==> (#[trigger] r.comparators@[j]).arg < ARG_COUNT,
    ensures
        b == request_matches(*r, nr, args@),
{
    if r.syscall != nr {
        return false;
    }
    let mut j: usize = 0;
    while j < r.comparators.len()
        invariant
            j <= r.comparators.len(),
            forall|k: int| 0 <= k < r.comparators@.len()
                ==> (#[trigger] r.comparators@[k]).arg < ARG_COUNT,
            forall|k: int| 0 <= k < j ==> cmp_holds(#[trigger] r.comparators@[k], args@),
        decreases r.comparators.len() - j,
    {
        if !cmp_holds_exec(&r.comparators[j], args) {
            return false;
        }
        j += 1;
    }
    true
}

} // verus!
