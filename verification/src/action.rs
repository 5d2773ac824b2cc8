//! Enforcement outcomes and their primitive encodings.

use vstd::prelude::*;

verus! {

/// The enforcement outcome a rule (or a whole policy, as its default)
/// prescribes.  Exactly one action governs a rule; actions are never
/// combined.
#[derive(Debug, Clone, Copy, PartialEq, Eq, Structural)]
pub enum Action {
    /// Allow the syscall to be executed.
    Allow,
    /// Kill the process.
    Kill,
    /// Throw a SIGSYS signal.
    Trap,
    /// Make the syscall return the specified error code.
    Errno(i32),
    /// Notify a tracing process with the specified value.
    Trace(u32),
}

/// The primitive code the kernel facility assigns to each action; part of
/// the wire contract.  The error-return and trace actions embed the low
/// 16 bits of their payload in the code.
pub open spec fn action_code_spec(a: Action) -> u32 {
    match a {
        Action::Allow => 0x7fff0000u32,
        Action::Kill => 0x00000000u32,
        Action::Trap => 0x00030000u32,
        Action::Errno(x) => 0x00050000u32 | ((x as u32) & 0x0000ffffu32),
        Action::Trace(x) => 0x7ff00000u32 | (x & 0x0000ffffu32),
    }
}

impl Action {
    /// Translate this action to its primitive code.
    pub fn code(&self) -> (c: u32)
        ensures
            c == action_code_spec(*self),
    {
        match self {
            Action::Allow => 0x7fff0000,
            Action::Kill => 0x00000000,
            Action::Trap => 0x00030000,
            Action::Errno(x) => {
                let low: u32 = #[verifier::truncate] (*x as u32);
                0x00050000u32 | (low & 0x0000ffff)
            },
            Action::Trace(x) => 0x7ff00000u32 | (*x & 0x0000ffff),
        }
    }
}

} // verus!
