//! One syscall number bound to an action and an ANDed comparison sequence.

use vstd::prelude::*;
use crate::action::Action;
use crate::compare::Cmp;

verus! {

/// One filter rule: a syscall number, the action taken when the rule
/// matches, and an ordered sequence of comparisons that are ANDed — the
/// action applies only if every comparison holds.  Construction requires
/// one comparison up front; more may be appended, none removed.  Order
/// does not affect the ANDed semantics but is preserved for
/// reproducibility.
#[derive(Debug, Clone)]
pub struct Rule {
    /// The action applied when the rule matches.
    pub action: Action,
    /// The syscall number the rule is bound to.
    pub syscall_nr: usize,
    /// The ordered, ANDed comparisons.
    pub comparators: Vec<Cmp>,
}

impl Rule {
    /// Create a new rule for `syscall_nr` with the single comparison
    /// `cmp`, enforcing `action` when it matches.
    pub fn new(syscall_nr: usize, cmp: Cmp, action: Action) -> (r: Rule)
        ensures
            r.action == action,
            r.syscall_nr == syscall_nr,
            r.comparators@ == seq![cmp],
    {
        Rule { action, syscall_nr, comparators: vec![cmp] }
    }

    /// Append one more comparison; the comparisons of a rule are ANDed
    /// together.  Appending always succeeds, grows the sequence by
    /// exactly one, and leaves the earlier comparisons, their order, the
    /// syscall number and the action untouched.
    pub fn add_comparison(&mut self, cmp: Cmp)
        ensures
            final(self).comparators@ == old(self).comparators@.push(cmp),
            final(self).action == old(self).action,
            final(self).syscall_nr == old(self).syscall_nr,
    {
        self.comparators.push(cmp);
    }
}

/// The comparison sequence a rule holds after the comparisons of
/// `appended` have been added one at a time, in order, to a rule holding
/// `base`: each step is one [`Rule::add_comparison`], which pushes one
/// comparison at the end.
pub open spec fn appended_comparators(base: Seq<Cmp>, appended: Seq<Cmp>) -> Seq<Cmp>
    decreases appended.len(),
{
    if appended.len() == 0 {
        base
    } else {
        appended_comparators(base.push(appended[0]), appended.drop_first())
    }
}

/// Appending N comparisons one at a time to a rule grows its comparison
/// sequence by exactly N, keeps every earlier comparison in place, and
/// adds the new ones at the end in the order they were appended.  In
/// particular, a rule built from one comparison and extended N times
/// holds N + 1 comparisons.
pub proof fn lemma_appends_preserve_order(base: Seq<Cmp>, appended: Seq<Cmp>)
    ensures
        appended_comparators(base, appended) == base + appended,
        appended_comparators(base, appended).len() == base.len() + appended.len(),
    decreases appended.len(),
{
    if appended.len() == 0 {
        assert(appended_comparators(base, appended) == base);
        assert(base + appended =~= base);
    } else {
        lemma_appends_preserve_order(base.push(appended[0]), appended.drop_first());
        assert(base.push(appended[0]) + appended.drop_first() =~= base + appended);
    }
}

} // verus!
