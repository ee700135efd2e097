//! Ordered input validation.
//!
//! Constructors and fallible helpers of this library check their inputs in a
//! documented order (finiteness of each field in declaration order, then sign
//! and range conditions, then consistency between fields) and report the first
//! check that fails. The checks themselves compare floating-point values and
//! are evaluated by the caller; [`first_failed_check`] is the rule that picks
//! the error to report.

use vstd::prelude::*;

verus! {

/// Every check up to (not including) position `n` passed.
pub open spec fn all_passed_before(passed: Seq<bool>, n: int) -> bool {
    forall|k: int| 0 <= k < n ==> #[trigger] passed[k]
}

/// Returns the position of the first failed check, or `None` when every check passed.
pub fn first_failed_check(passed: &[bool]) -> (first: Option<usize>)
    ensures
        match first {
            None => all_passed_before(passed@, passed@.len() as int),
            Some(i) => i < passed@.len() && !passed@[i as int] && all_passed_before(passed@, i as int),
        },
{
    let mut i: usize = 0;
    while i < passed.len()
        invariant
            i <= passed@.len(),
            all_passed_before(passed@, i as int),
        decreases passed@.len() - i,
    {
        if !passed[i] {
            return Some(i);
        }
        i = i + 1;
    }
    None
}

} // verus!
