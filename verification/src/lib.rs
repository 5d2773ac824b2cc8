//! A policy-construction layer for syscall filtering.
//!
//! Filter policies are built from validated, composable values:
//! comparison operators ([`Op`]), enforcement outcomes ([`Action`]),
//! staged comparison builders ([`Compare`]) that finalize into wire
//! records ([`Cmp`]), and rules ([`Rule`]) that bind a syscall number to
//! an action and an ANDed sequence of comparisons.  A [`Context`] owns
//! the lifecycle of one native filter handle and accumulates rules
//! before a single, irreversible load.
//!
//! The kernel-facing calls themselves cannot be made from verified
//! code: the [`Context`] state machine instead produces exact requests
//! for an unverified embedding layer to forward, and consumes the
//! statuses that layer reports back, so that every encoding, every
//! validation, and every lifecycle decision is verified here.
//! [`ModelFilter`] is a verified stand-in for the kernel facility,
//! implementing the same boundary over plain values, with which the
//! whole request/outcome protocol can be exercised and observed.

pub mod action;
pub mod compare;
pub mod context;
pub mod error;
pub mod model;
pub mod op;
pub mod rule;

pub use action::Action;
pub use compare::Cmp;
pub use compare::Compare;
pub use context::Context;
pub use context::ContextState;
pub use context::RuleRequest;
pub use error::SeccompError;
pub use model::ModelFilter;
pub use model::add_rule_model;
pub use model::load_model;
pub use model::release_model;
pub use op::Op;
pub use rule::Rule;
