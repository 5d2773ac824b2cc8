//! Comparison operators for syscall arguments.

use vstd::prelude::*;

verus! {

/// Comparison operators relating a syscall argument to a datum.
#[derive(Debug, Clone, Copy, PartialEq, Eq, Structural)]
pub enum Op {
    /// not equal
    Ne,
    /// less than
    Lt,
    /// less than or equal
    Le,
    /// equal
    Eq,
    /// greater than or equal
    Ge,
    /// greater than
    Gt,
    /// masked equality: `(argument & datum_b) == datum_a`
    MaskedEq,
}

/// The primitive code the kernel facility assigns to each comparison
/// operator; the numbering is part of the wire contract and every variant
/// maps to exactly one code.
pub open spec fn op_code_spec(op: Op) -> u32 {
    match op {
        Op::Ne => 1u32,
        Op::Lt => 2u32,
        Op::Le => 3u32,
        Op::Eq => 4u32,
        Op::Ge => 5u32,
        Op::Gt => 6u32,
        Op::MaskedEq => 7u32,
    }
}

impl Op {
    /// Translate this operator to its primitive code.
    pub fn code(&self) -> (c: u32)
        ensures
            c == op_code_spec(*self),
    {
        match self {
            Op::Ne => 1,
            Op::Lt => 2,
            Op::Le => 3,
            Op::Eq => 4,
            Op::Ge => 5,
            Op::Gt => 6,
            Op::MaskedEq => 7,
        }
    }
}

} // verus!
