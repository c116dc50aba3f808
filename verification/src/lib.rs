//! Verified core of a debug-trace driver: it speaks a Chrome-DevTools-style
//! protocol over a socket owned by the surrounding program, single-steps the
//! debugged program and records, at every pause, the source location and the
//! variables reachable from the in-scope, non-excluded scopes.
//!
//! The socket itself, the external debugger process and the output file live
//! outside this crate; the logic here is written as data types, pure
//! functions and small state machines that the surrounding program drives.

pub mod handshake;
pub mod json;
pub mod messages;
pub mod recorder;
pub mod resolver;
pub mod seeder;
pub mod skipper;
pub mod text;
pub mod wire;

use vstd::prelude::*;

verus! {

/// Spec-level prefix test: `p` is an initial segment of `s`.
pub open spec fn seq_starts_with(s: Seq<char>, p: Seq<char>) -> bool {
    p.len() <= s.len() && s.subrange(0, p.len() as int) == p
}

} // verus!
