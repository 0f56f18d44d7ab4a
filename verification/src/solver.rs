//! The search for the smallest sample size.
//!
//! The sample size that reaches a given power is the smallest root of an
//! equation that has no closed form. It is searched bracket by bracket:
//! `[0, w]`, `[w, 2w]` and so on up to a limit, and the first bracket in
//! which a root is found decides. Finding a root inside one bracket is
//! numerical work that the caller supplies; which brackets are tried, in
//! which order, what can count as a sample size, and when the search gives
//! up is settled here.

use crate::decimal::Decimal;
use vstd::prelude::*;

verus! {

/// The brackets of a search: each `width` wide, the first at zero, one for
/// every multiple of `width` under `limit`.
#[derive(Clone, Copy, Debug, PartialEq, Eq, Structural)]
pub struct Brackets {
    pub width: u32,
    pub limit: u32,
}

impl Brackets {
    /// The brackets have a width.
    pub open spec fn wf(self) -> bool {
        self.width > 0
    }

    /// The number of brackets.
    pub open spec fn count(self) -> int {
        (self.limit + self.width - 1) / (self.width as int)
    }

    /// The lower end of bracket `k`.
    pub open spec fn lower(self, k: int) -> int {
        k * self.width
    }

    /// The upper end of bracket `k`.
    pub open spec fn upper(self, k: int) -> int {
        k * self.width + self.width
    }

    /// `n` can be the sample size that bracket `k` gives: a positive whole
    /// number that does not lie beyond the bracket.
    pub open spec fn holds(self, k: int, n: i64) -> bool {
        1 <= n <= self.upper(k)
    }

    /// `find` may report `found` for bracket `k`.
    pub open spec fn reports<F: Fn(i64, i64) -> Option<i64>>(
        self,
        find: F,
        k: int,
        found: Option<i64>,
    ) -> bool {
        find.ensures((self.lower(k) as i64, self.upper(k) as i64), found)
    }

    /// Bracket `k` may give no sample size: `find` may report no root for
    /// it, or one that cannot be a sample size of the bracket.
    pub open spec fn fails<F: Fn(i64, i64) -> Option<i64>>(self, find: F, k: int) -> bool {
        exists|found: Option<i64>|
            #[trigger] self.reports(find, k, found) && match found {
                Some(n) => !self.holds(k, n),
                None => true,
            }
    }

    /// Bracket `k` may give the sample size `n`: `find` may report it, and
    /// it can be a sample size of the bracket.
    pub open spec fn finds<F: Fn(i64, i64) -> Option<i64>>(self, find: F, k: int, n: i64) -> bool {
        self.reports(find, k, Some(n)) && self.holds(k, n)
    }

    /// Brackets of the given width up to the given limit, if the width is
    /// not zero.
    pub fn new(width: u32, limit: u32) -> (r: Option<Brackets>)
        ensures
            r == (if width > 0 {
                Some(Brackets { width, limit })
            } else {
                None
            }),
            r matches Some(brackets) ==> brackets.wf(),
    {
        if width > 0 {
            Some(Brackets { width, limit })
        } else {
            None
        }
    }

    /// The brackets of the sample-size search: fifty brackets of width
    /// twenty, up to a thousand.
    pub fn standard() -> (r: Brackets)
        ensures
            r == (Brackets { width: 20, limit: 1000 }),
            r.wf(),
            r.count() == 50,
            r.count() * r.width == 1000,
    {
        Brackets { width: 20, limit: 1000 }
    }

    /// Searches the brackets in increasing order with `find`, which looks
    /// for a root between two bounds, and stops at the first bracket that
    /// gives a sample size: a root that is positive and does not lie beyond
    /// its bracket. What `find` reports otherwise is passed over. The result
    /// is that sample size, which lies between one and the end of the last
    /// bracket; it is `None` exactly if no bracket gave one.
    pub fn search<F: Fn(i64, i64) -> Option<i64>>(&self, find: F) -> (r: Option<i64>)
        requires
            self.wf(),
            forall|a: i64, b: i64| find.requires((a, b)),
        ensures
            match r {
                Some(n) => exists|k: int|
                    0 <= k < self.count() && #[trigger] self.finds(find, k, n) && forall|j: int|
                        0 <= j < k ==> #[trigger] self.fails(find, j),
                None => forall|k: int| 0 <= k < self.count() ==> #[trigger] self.fails(find, k),
            },
            r matches Some(n) ==> 1 <= n <= self.count() * self.width,
    {
        let width: i64 = self.width as i64;
        let limit: i64 = self.limit as i64;
        let mut lower: i64 = 0;
        let ghost mut k: int = 0;
        proof {
            lemma_next_bracket(*self, 0);
        }
        while lower < limit
            invariant
                self.wf(),
                width == self.width,
                width > 0,
                limit == self.limit,
                0 <= k <= self.count(),
                lower == self.lower(k),
                lower < limit <==> k < self.count(),
                forall|a: i64, b: i64| find.requires((a, b)),
                forall|j: int| 0 <= j < k ==> #[trigger] self.fails(find, j),
            decreases self.count() - k,
        {
            let upper: i64 = lower + width;
            assert(upper == self.upper(k));
            let found = find(lower, upper);
            assert(self.reports(find, k, found));
            match found {
                Some(n) => {
                    if 1 <= n && n <= upper {
                        proof {
                            lemma_last_bracket(*self, k);
                        }
                        assert(self.finds(find, k, n));
                        return Some(n);
                    }
                },
                None => {},
            }
            assert(self.fails(find, k));
            proof {
                lemma_next_bracket(*self, k);
                lemma_next_bracket(*self, k + 1);
                k = k + 1;
            }
            lower = upper;
        }
        None
    }
}

/// The bounds and the tolerance of the two inversions: of the sample size,
/// which is searched bracket by bracket, and of the effect size, which is
/// searched in one bracket.
#[derive(Clone, Copy, Debug, PartialEq, Eq, Structural)]
pub struct Solver {
    /// The brackets in which a sample size is searched.
    pub brackets: Brackets,
    /// The lower end of the bracket in which an effect size is searched.
    pub es_lower: Decimal,
    /// The upper end of that bracket.
    pub es_upper: Decimal,
    /// How close to zero the equation has to come at a root.
    pub eps: Decimal,
    /// The most steps of a search inside one bracket.
    pub max_iter: u32,
}

impl Solver {
    /// The brackets have a width, the bracket of the effect size has its
    /// lower end under its upper end, the tolerance is more than zero, and
    /// a search may take a step.
    pub open spec fn wf(self) -> bool {
        &&& self.brackets.wf()
        &&& self.es_lower.wf()
        &&& self.es_upper.wf()
        &&& self.eps.wf()
        &&& self.es_lower.less_than(self.es_upper)
        &&& self.eps.units > 0
        &&& self.max_iter > 0
    }

    /// A solver with the given bounds and tolerance, if they are sound.
    pub fn new(
        brackets: Brackets,
        es_lower: Decimal,
        es_upper: Decimal,
        eps: Decimal,
        max_iter: u32,
    ) -> (r: Option<Solver>)
        ensures
            r == (if (Solver { brackets, es_lower, es_upper, eps, max_iter }).wf() {
                Some(Solver { brackets, es_lower, es_upper, eps, max_iter })
            } else {
                None
            }),
    {
        if brackets.width > 0 && es_lower.scale <= 18 && es_upper.scale <= 18 && eps.scale <= 18
            && eps.units > 0 && max_iter > 0 && es_lower.lt(es_upper) {
            Some(Solver { brackets, es_lower, es_upper, eps, max_iter })
        } else {
            None
        }
    }

    /// The solver of the power analysis: sample sizes in fifty brackets of
    /// width twenty, effect sizes between `0.001` and `8`, a tolerance of
    /// `0.0001` and at most five hundred steps.
    pub fn standard() -> (r: Solver)
        ensures
            r == (Solver {
                brackets: Brackets { width: 20, limit: 1000 },
                es_lower: Decimal { units: 1, scale: 3 },
                es_upper: Decimal { units: 8, scale: 0 },
                eps: Decimal { units: 1, scale: 4 },
                max_iter: 500,
            }),
            r.wf(),
    {
        proof {
            reveal_with_fuel(vstd::arithmetic::power::pow, 5);
        }
        Solver {
            brackets: Brackets::standard(),
            es_lower: Decimal { units: 1, scale: 3 },
            es_upper: Decimal { units: 8, scale: 0 },
            eps: Decimal { units: 1, scale: 4 },
            max_iter: 500,
        }
    }
}

/// Bracket `k + 1` starts where bracket `k` ends, and it is one of the
/// brackets exactly if it starts under the limit.
pub proof fn lemma_next_bracket(brackets: Brackets, k: int)
    requires
        brackets.wf(),
        0 <= k,
    ensures
        brackets.lower(k + 1) == brackets.upper(k),
        brackets.lower(k) < brackets.limit <==> k < brackets.count(),
{
    let w = brackets.width as int;
    let l = brackets.limit as int;
    assert((k + 1) * w == k * w + w) by (nonlinear_arith);
    assert(k * w < l <==> k < (l + w - 1) / w) by (nonlinear_arith)
        requires
            w > 0,
            0 <= k,
            0 <= l,
    ;
}

/// No bracket ends beyond the end of the last one.
pub proof fn lemma_last_bracket(brackets: Brackets, k: int)
    requires
        brackets.wf(),
        0 <= k < brackets.count(),
    ensures
        brackets.upper(k) <= brackets.count() * brackets.width,
{
    let w = brackets.width as int;
    let c = brackets.count();
    assert(k * w + w <= c * w) by (nonlinear_arith)
        requires
            k + 1 <= c,
            w > 0,
    ;
}

/// The brackets cover every point from zero up to the limit: each lies in
/// exactly one bracket, its lower end counted in and its upper end out.
pub proof fn lemma_brackets_cover(brackets: Brackets, x: int, k: int)
    requires
        brackets.wf(),
        0 <= x < brackets.limit,
    ensures
        0 <= x / (brackets.width as int) < brackets.count(),
        brackets.lower(k) <= x < brackets.upper(k) <==> k == x / (brackets.width as int),
{
    let w = brackets.width as int;
    let q = x / w;
    assert(0 <= q && q * w <= x < q * w + w) by (nonlinear_arith)
        requires
            q == x / w,
            w > 0,
            0 <= x,
    ;
    lemma_next_bracket(brackets, q);
    assert(k * w <= x < k * w + w <==> k == q) by (nonlinear_arith)
        requires
            q * w <= x < q * w + w,
            w > 0,
    ;
}

} // verus!
