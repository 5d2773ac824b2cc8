//! Staged construction of one argument comparison.

use vstd::prelude::*;
use crate::op::Op;

verus! {

/// One finalized argument comparison, in the exact field order the kernel
/// facility's comparison record uses: argument index, operator, primary
/// datum, secondary datum.  A `Cmp` only comes out of [`Compare::build`],
/// which guarantees an operator and a primary datum were supplied.
#[derive(Debug, Clone, Copy, PartialEq, Eq, Structural)]
pub struct Cmp {
    /// Index of the syscall argument the comparison reads, starting at 0.
    pub arg: u32,
    /// The comparison operator.
    pub op: Op,
    /// The primary datum the argument is compared against.
    pub datum_a: u64,
    /// The secondary datum; meaningful only for masked equality, where it
    /// is the mask.  Zero when none was supplied.
    pub datum_b: u64,
}

/// A draft of one argument comparison: starts from an argument index and
/// accumulates an operator, a primary datum, and optionally a secondary
/// datum.  Finalization through [`Compare::build`] is the only path to a
/// [`Cmp`] and the sole place validation occurs.
#[derive(Debug, Clone, Copy, PartialEq, Eq, Structural)]
pub struct Compare {
    /// Index of the syscall argument, starting at 0.
    pub arg: u32,
    /// The operator, once supplied.
    pub op: Option<Op>,
    /// The primary datum, once supplied.
    pub datum_a: Option<u64>,
    /// The secondary datum, once supplied.
    pub datum_b: Option<u64>,
}

impl Compare {
    /// Start a draft comparison on the syscall argument with the given
    /// index (starting at 0).  No operator or datum is set yet.
    pub fn arg(arg_num: u32) -> (c: Compare)
        ensures
            c == (Compare { arg: arg_num, op: None, datum_a: None, datum_b: None }),
    {
        Compare { arg: arg_num, op: None, datum_a: None, datum_b: None }
    }

    /// Set the comparison operator.
    pub fn using(self, op: Op) -> (c: Compare)
        ensures
            c == (Compare { op: Some(op), ..self }),
    {
        Compare { arg: self.arg, op: Some(op), datum_a: self.datum_a, datum_b: self.datum_b }
    }

    /// Set the primary datum to compare with.
    pub fn with(self, datum: u64) -> (c: Compare)
        ensures
            c == (Compare { datum_a: Some(datum), ..self }),
    {
        Compare { arg: self.arg, op: self.op, datum_a: Some(datum), datum_b: self.datum_b }
    }

    /// Set the secondary datum.
    pub fn and(self, datum: u64) -> (c: Compare)
        ensures
            c == (Compare { datum_b: Some(datum), ..self }),
    {
        Compare { arg: self.arg, op: self.op, datum_a: self.datum_a, datum_b: Some(datum) }
    }

    /// Finalize the draft.  Yields a comparison exactly when both an
    /// operator and a primary datum were supplied, and nothing otherwise:
    /// a partially-specified comparison never escapes the draft stage.
    /// A missing secondary datum defaults to zero.  No cross-field
    /// validation is imposed: masked equality without an explicit mask is
    /// deliberately accepted (and gets mask zero), mirroring the kernel
    /// facility's own permissiveness.
    pub fn build(self) -> (r: Option<Cmp>)
        ensures
            r is Some <==> (self.op is Some && self.datum_a is Some),
            r is Some ==> r == Some(Cmp {
                arg: self.arg,
                op: self.op->0,
                datum_a: self.datum_a->0,
                datum_b: if self.datum_b is Some { self.datum_b->0 } else { 0u64 },
            }),
    {
        match (self.op, self.datum_a) {
            (Some(op), Some(datum_a)) => Some(Cmp {
                arg: self.arg,
                op: op,
                datum_a: datum_a,
                datum_b: match self.datum_b {
                    Some(b) => b,
                    None => 0,
                },
            }),
            _ => None,
        }
    }
}

} // verus!
