//! The grade scale shared by all actors.
//!
//! A grade is a whole number of hundredths of a grade point, so `6000`
//! stands for 60.00 points. Keeping grades as integers lets the pass/fail
//! and boosting rules be stated exactly.

use vstd::prelude::*;

verus! {

/// A grade, in hundredths of a grade point.
pub type Grade = u64;

/// The passing threshold: 60.00 points. A grade strictly below this fails.
pub const PASSING_GRADE: Grade = 6000;

/// The highest grade on the scale: 100.00 points.
pub const MAX_GRADE: Grade = 10000;

/// The grade a freshly registered student starts with: 0.00 points.
pub const DEFAULT_GRADE: Grade = 0;

/// How many entries of `grades` lie strictly below `threshold`.
pub open spec fn count_below(grades: Seq<Grade>, threshold: Grade) -> nat
    decreases grades.len(),
{
    if grades.len() == 0 {
        0
    } else {
        count_below(grades.drop_last(), threshold) + if grades.last() < threshold {
            1nat
        } else {
            0nat
        }
    }
}

} // verus!
