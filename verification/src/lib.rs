//! Power analysis for hypothesis tests: the exact part.
//!
//! Given three of sample size, significance level, power and effect size
//! for a test of a closed catalog, the fourth can be computed. The
//! distributions behind that are real-valued, and evaluating them is the
//! caller's. This library is everything around the arithmetic:
//!
//! - [`interface`] reads a request and reports what is wrong with it, with
//!   [`json`] and [`fields`] for its members and [`text`] and [`decimal`]
//!   for the numbers that they spell;
//! - [`power`] knows the catalog of tests and the design of each;
//! - [`rmath`] resolves the special cases of the distribution functions;
//! - [`solver`] steers the search for a sample size;
//! - [`routes`] lists what the service answers, and [`string`] cleans the
//!   text that comes over its boundary.

use vstd::prelude::*;

pub mod decimal;
pub mod fields;
pub mod interface;
pub mod json;
pub mod power;
pub mod rmath;
pub mod routes;
pub mod solver;
pub mod string;
pub mod text;

verus! {

/// Adds ten to `x`.
pub fn add_ten(x: i32) -> (r: i32)
    requires
        x + 10 <= i32::MAX,
    ensures
        r == x + 10,
{
    x + 10
}

} // verus!
