//! The uniform failure carrier and the text of its messages.

use vstd::prelude::*;
use vstd::string::StringExecFns;
use crate::action::Action;
use crate::action::action_code_spec;

verus! {

/// The decimal digit character for `d`; meaningful for `d < 10`.
pub open spec fn digit_char(d: nat) -> char {
    if d == 0 {
        '0'
    } else if d == 1 {
        '1'
    } else if d == 2 {
        '2'
    } else if d == 3 {
        '3'
    } else if d == 4 {
        '4'
    } else if d == 5 {
        '5'
    } else if d == 6 {
        '6'
    } else if d == 7 {
        '7'
    } else if d == 8 {
        '8'
    } else {
        '9'
    }
}

/// The decimal text of `n`, most significant digit first, without
/// leading zeros (`0` itself reads "0").
pub open spec fn dec_str(n: nat) -> Seq<char>
    decreases n,
{
    if n < 10 {
        seq![digit_char(n)]
    } else {
        dec_str(n / 10).push(digit_char(n % 10))
    }
}

/// Append the digit character of `d` to `s`.
fn push_digit(s: &mut String, d: u64)
    requires
        d < 10,
    ensures
        final(s)@ == old(s)@.push(digit_char(d as nat)),
{
    let t: &str = if d == 0 {
        "0"
    } else if d == 1 {
        "1"
    } else if d == 2 {
        "2"
    } else if d == 3 {
        "3"
    } else if d == 4 {
        "4"
    } else if d == 5 {
        "5"
    } else if d == 6 {
        "6"
    } else if d == 7 {
        "7"
    } else if d == 8 {
        "8"
    } else {
        "9"
    };
    proof {
        reveal_strlit("0");
        reveal_strlit("1");
        reveal_strlit("2");
        reveal_strlit("3");
        reveal_strlit("4");
        reveal_strlit("5");
        reveal_strlit("6");
        reveal_strlit("7");
        reveal_strlit("8");
        reveal_strlit("9");
        assert(t@ =~= seq![digit_char(d as nat)]);
    }
    s.append(t);
    proof {
        assert(old(s)@ + t@ =~= old(s)@.push(digit_char(d as nat)));
    }
}

/// Build the decimal text of `n`.
fn dec_u64(n: u64) -> (r: String)
    ensures
        r@ == dec_str(n as nat),
    decreases n,
{
    if n < 10 {
        let mut s = String::new();
        push_digit(&mut s, n);
        proof {
            assert(Seq::<char>::empty().push(digit_char(n as nat)) =~= seq![digit_char(n as nat)]);
        }
        s
    } else {
        let mut s = dec_u64(n / 10);
        push_digit(&mut s, n % 10);
        s
    }
}

/// Message raised when the kernel facility refuses to produce a filter
/// handle.
pub open spec fn init_error_msg() -> Seq<char> {
    "initialization failed"@
}

/// Message raised when the kernel facility rejects a rule.  It carries
/// enough of the rule's identity to diagnose the failure: the syscall
/// number and the primitive code of the rule's action.
pub open spec fn rule_error_msg(syscall_nr: usize, action: Action) -> Seq<char> {
    "failed to add rule: syscall "@ + dec_str(syscall_nr as nat) + ", action code "@
        + dec_str(action_code_spec(action) as nat)
}

/// Message raised when the kernel facility cannot compile or activate
/// the accumulated policy.
pub open spec fn load_error_msg() -> Seq<char> {
    "failed to load filter into the kernel"@
}

/// Message raised when an operation is attempted on a context whose
/// policy has already been loaded.
pub open spec fn already_loaded_msg() -> Seq<char> {
    "context already loaded"@
}

/// Message raised when an operation is attempted on a context whose
/// handle has already been released.
pub open spec fn already_released_msg() -> Seq<char> {
    "context already released"@
}

/// Uniform failure carrier for all fallible operations: a human-readable
/// message identifying the operation that failed, with no structured
/// kind.  Its view is the message text.
#[derive(Debug, Clone)]
pub struct SeccompError {
    msg: String,
}

impl View for SeccompError {
    type V = Seq<char>;

    closed spec fn view(&self) -> Seq<char> {
        self.msg@
    }
}

impl SeccompError {
    /// Wrap a message.
    pub(crate) fn new(msg: String) -> (e: SeccompError)
        ensures
            e@ == msg@,
    {
        SeccompError { msg }
    }

    /// The message text.
    pub fn message(&self) -> (m: &str)
        ensures
            m@ == self@,
    {
        self.msg.as_str()
    }

    /// The error for a refused filter-handle initialization.
    pub(crate) fn init_failure() -> (e: SeccompError)
        ensures
            e@ == init_error_msg(),
    {
        SeccompError::new(String::from_str("initialization failed"))
    }

    /// The error for a rule the facility rejected, naming the rule's
    /// syscall number and primitive action code.
    pub(crate) fn rule_failure(syscall_nr: usize, action: Action) -> (e: SeccompError)
        ensures
            e@ == rule_error_msg(syscall_nr, action),
    {
        let mut s = String::from_str("failed to add rule: syscall ");
        let nr = dec_u64(syscall_nr as u64);
        s.append(nr.as_str());
        s.append(", action code ");
        let code = action.code();
        let cd = dec_u64(code as u64);
        s.append(cd.as_str());
        proof {
            assert(s@ =~= rule_error_msg(syscall_nr, action));
        }
        SeccompError::new(s)
    }

    /// The error for a policy the facility could not load.
    pub(crate) fn load_failure() -> (e: SeccompError)
        ensures
            e@ == load_error_msg(),
    {
        SeccompError::new(String::from_str("failed to load filter into the kernel"))
    }

    /// The error for an operation attempted after a successful load.
    pub(crate) fn already_loaded() -> (e: SeccompError)
        ensures
            e@ == already_loaded_msg(),
    {
        SeccompError::new(String::from_str("context already loaded"))
    }

    /// The error for an operation attempted after release.
    pub(crate) fn already_released() -> (e: SeccompError)
        ensures
            e@ == already_released_msg(),
    {
        SeccompError::new(String::from_str("context already released"))
    }
}

} // verus!
