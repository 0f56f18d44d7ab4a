//! The catalog of hypothesis tests: how a request names one, and which
//! distribution its statistic follows.
//!
//! A request names its test by an identifier and gives the test's structural
//! parameters as members of the request object, each as the text of a
//! number. Reading a request never fails silently: an unknown identifier, a
//! missing member, a member that is no number and a sphericity correction
//! out of its bounds are each reported.
//!
//! Each test has a design: the family of the distribution of its statistic
//! and the whole numbers in its degrees of freedom and its noncentrality.
//! See the G*Power 3 paper for the equations
//! (https://doi.org/10.3758/BF03193146).

use crate::decimal::{lemma_pow10_fits, pow10, pow10_i128, Decimal, MAX_SCALE};
use crate::fields::{agrees, decimal_entry, decimal_from, integer_entry, integer_from};
use crate::json::{entry, member, members, Entry};
use crate::text::same_text;
use serde_json::Value;
use vstd::prelude::*;
use vstd::string::*;

verus! {

/// The hypothesis tests that a power analysis can be asked for.
#[derive(Clone, Copy, Debug, PartialEq, Eq, Structural)]
#[allow(inconsistent_fields)]
pub enum TestKind {
    /// Means: Difference from constant (one sample case).
    OneSampleTTest,
    /// Means: Difference between two independent means (two groups).
    IndependentSamplesTTest,
    /// Goodness-of-fit tests: Contingency tables.
    GoodnessOfFitChisqTest {
        /// Degrees of freedom.
        df: i64,
    },
    /// Linear multiple regression: Fixed model, R^2 deviation from zero.
    DeviationFromZeroMultipleRegression {
        /// Number of predictors (#A).
        n_predictors: i64,
    },
    /// Multiple regression: increase of R^2.
    IncreaseMultipleRegression {
        /// Total number of predictors (#A + #B).
        rho: i64,
        /// Number of tested predictors (#B).
        q: i64,
    },
    /// ANOVA: Fixed effects, omnibus, one-way.
    OneWayANOVA {
        /// Number of groups.
        k: i64,
    },
    /// ANOVA: Fixed effects, special, main effects and interactions.
    TwoWayANOVA {
        /// Total number of cells in the design.
        k: i64,
        /// Degrees of freedom of the tested effect.
        q: i64,
    },
    /// ANCOVA: Fixed effects, main effects and interactions.
    ANCOVA {
        /// Number of groups.
        k: i64,
        /// Degrees of freedom of the tested effect.
        q: i64,
        /// Number of covariates.
        p: i64,
    },
    /// ANOVA: Repeated measures, between factors.
    BetweenRepeatedANOVA {
        /// Number of groups.
        k: i64,
        /// Number of measurements.
        m: i64,
        /// Correlation among the repeated measures.
        rho: Decimal,
    },
    /// ANOVA: Repeated measures, within factors.
    WithinRepeatedANOVA {
        /// Number of groups.
        k: i64,
        /// Number of measurements.
        m: i64,
        /// Correlation among the repeated measures.
        rho: Decimal,
        /// Sphericity correction, between `1 / (m - 1)` and `1`.
        epsilon: Decimal,
    },
    /// ANOVA: Repeated measures, within-between interaction.
    WithinBetweenRepeatedANOVA {
        /// Number of groups.
        k: i64,
        /// Number of measurements.
        m: i64,
        /// Correlation among the repeated measures.
        rho: Decimal,
        /// Sphericity correction, between `1 / (m - 1)` and `1`.
        epsilon: Decimal,
    },
}

/// The structural parameters of a repeated-measures design with a within
/// factor: groups, measurements, correlation and sphericity correction.
#[derive(Clone, Copy, Debug, PartialEq, Eq, Structural)]
pub struct RepeatedMeasures {
    pub k: i64,
    pub m: i64,
    pub rho: Decimal,
    pub epsilon: Decimal,
}

/// How the correlation among repeated measures scales the noncentrality
/// of a test.
#[derive(Clone, Copy, Debug, PartialEq, Eq, Structural)]
pub enum Gain {
    /// Not at all: the factor is `1`.
    Unit,
    /// By `m / (1 + (m - 1) * rho)`, for a factor between the subjects.
    Between { m: i64, rho: Decimal },
    /// By `m / (1 - rho)`, for a factor within the subjects.
    Within { m: i64, rho: Decimal },
}

/// The distribution of a test statistic under the alternative hypothesis,
/// as it depends on the sample size `n` and the effect size `es`. What is
/// written here in whole numbers and decimals is exact; `n` and `es` are
/// real numbers, and so is what comes of them.
#[derive(Clone, Copy, Debug, PartialEq, Eq, Structural)]
#[allow(inconsistent_fields)]
pub enum Design {
    /// The t distribution with `n - lost` degrees of freedom and the
    /// noncentrality `sqrt(n / groups) * es`.
    T { lost: i64, groups: i64 },
    /// The chi-squared distribution with `df` degrees of freedom and the
    /// noncentrality `es^2 * n`.
    ChiSquared { df: i64 },
    /// The F distribution with `numerator * epsilon` and
    /// `(n - lost) * spread * epsilon` degrees of freedom and the
    /// noncentrality `es^2 * gain * n * epsilon`, where `epsilon` is `1`
    /// unless there is one.
    F { numerator: i128, lost: i128, spread: i128, gain: Gain, epsilon: Option<Decimal> },
}

/// Whether the rejection region lies on one side or is split over two.
#[derive(Clone, Copy, Debug, PartialEq, Eq, Structural)]
pub enum Tail {
    OneSided,
    TwoSided,
}

/// The message for a sphericity correction under `1 / (m - 1)`.
pub open spec fn epsilon_too_small() -> Seq<char> {
    "lower bound of \u{3b5} corresponds to 1 / (number of measurements - 1)"@
}

/// The message for a sphericity correction over `1`.
pub open spec fn epsilon_too_large() -> Seq<char> {
    "upper bound of \u{3b5} is 1"@
}

/// The message for a test identifier that the catalog does not hold.
pub open spec fn unknown_test(text: Seq<char>) -> Seq<char> {
    "Unknown test: "@ + text
}

/// The integer that a request with the members `fields` gives for `field`.
pub open spec fn integer_field(fields: Map<Seq<char>, Entry>, field: Seq<char>) -> Result<
    i64,
    Seq<char>,
> {
    integer_from(member(fields, field), field)
}

/// The decimal that a request with the members `fields` gives for `field`.
pub open spec fn decimal_field(fields: Map<Seq<char>, Entry>, field: Seq<char>) -> Result<
    Decimal,
    Seq<char>,
> {
    decimal_from(member(fields, field), field)
}

/// `epsilon` is less than `1 / (m - 1)`, for `m` measurements. With one
/// measurement every correction is: the bound is then without limit.
pub open spec fn below_lower_bound(m: i64, epsilon: Decimal) -> bool {
    if m > 1 {
        epsilon.units * (m - 1) < pow10(epsilon.scale as nat)
    } else if m == 1 {
        true
    } else {
        epsilon.units * (m - 1) > pow10(epsilon.scale as nat)
    }
}

/// `epsilon` is more than `1`.
pub open spec fn above_upper_bound(epsilon: Decimal) -> bool {
    epsilon.units > pow10(epsilon.scale as nat)
}

/// The sphericity correction `epsilon` for `m` measurements, if it lies
/// between `1 / (m - 1)` and `1`, or the report of the bound that it
/// breaks.
pub open spec fn sphericity_of(m: i64, epsilon: Decimal) -> Result<Decimal, Seq<char>> {
    if below_lower_bound(m, epsilon) {
        Err(epsilon_too_small())
    } else if above_upper_bound(epsilon) {
        Err(epsilon_too_large())
    } else {
        Ok(epsilon)
    }
}

/// The structural parameters of a repeated-measures design with a within
/// factor that a request with the members `fields` gives, or the report of
/// the first thing wrong with them.
pub open spec fn repeated_measures_of(fields: Map<Seq<char>, Entry>) -> Result<
    RepeatedMeasures,
    Seq<char>,
> {
    match integer_field(fields, "k"@) {
        Ok(k) => match integer_field(fields, "m"@) {
            Ok(m) => match decimal_field(fields, "rho"@) {
                Ok(rho) => match decimal_field(fields, "epsilon"@) {
                    Ok(read) => match sphericity_of(m, read) {
                        Ok(epsilon) => Ok(RepeatedMeasures { k, m, rho, epsilon }),
                        Err(message) => Err(message),
                    },
                    Err(message) => Err(message),
                },
                Err(message) => Err(message),
            },
            Err(message) => Err(message),
        },
        Err(message) => Err(message),
    }
}

/// The tail that a request with the members `fields` asks for: its member
/// `tail` counts the sides of the rejection region.
pub open spec fn tail_of(fields: Map<Seq<char>, Entry>) -> Option<Tail> {
    match integer_field(fields, "tail"@) {
        Ok(sides) => if sides == 1 {
            Some(Tail::OneSided)
        } else if sides == 2 {
            Some(Tail::TwoSided)
        } else {
            None
        },
        Err(_) => None,
    }
}

/// The test that the identifier `text` names in a request with the members
/// `fields`, or the report of what is wrong with the request.
pub open spec fn test_kind_of(text: Seq<char>, fields: Map<Seq<char>, Entry>) -> Result<
    TestKind,
    Seq<char>,
> {
    if text == "oneSampleTTest"@ {
        Ok(TestKind::OneSampleTTest)
    } else if text == "independentSamplesTTest"@ {
        Ok(TestKind::IndependentSamplesTTest)
    } else if text == "goodnessOfFitChisqTest"@ {
        match integer_field(fields, "df"@) {
            Ok(df) => Ok(TestKind::GoodnessOfFitChisqTest { df }),
            Err(message) => Err(message),
        }
    } else if text == "deviationFromZeroMultipleRegression"@ {
        match integer_field(fields, "nPredictors"@) {
            Ok(n_predictors) => Ok(TestKind::DeviationFromZeroMultipleRegression { n_predictors }),
            Err(message) => Err(message),
        }
    } else if text == "increaseMultipleRegression"@ {
        match integer_field(fields, "rho"@) {
            Ok(rho) => match integer_field(fields, "q"@) {
                Ok(q) => Ok(TestKind::IncreaseMultipleRegression { rho, q }),
                Err(message) => Err(message),
            },
            Err(message) => Err(message),
        }
    } else if text == "oneWayANOVA"@ {
        match integer_field(fields, "k"@) {
            Ok(k) => Ok(TestKind::OneWayANOVA { k }),
            Err(message) => Err(message),
        }
    } else if text == "twoWayANOVA"@ {
        match integer_field(fields, "k"@) {
            Ok(k) => match integer_field(fields, "q"@) {
                Ok(q) => Ok(TestKind::TwoWayANOVA { k, q }),
                Err(message) => Err(message),
            },
            Err(message) => Err(message),
        }
    } else if text == "ANCOVA"@ {
        match integer_field(fields, "k"@) {
            Ok(k) => match integer_field(fields, "q"@) {
                Ok(q) => match integer_field(fields, "p"@) {
                    Ok(p) => Ok(TestKind::ANCOVA { k, q, p }),
                    Err(message) => Err(message),
                },
                Err(message) => Err(message),
            },
            Err(message) => Err(message),
        }
    } else if text == "betweenRepeatedANOVA"@ {
        match integer_field(fields, "k"@) {
            Ok(k) => match integer_field(fields, "m"@) {
                Ok(m) => match decimal_field(fields, "rho"@) {
                    Ok(rho) => Ok(TestKind::BetweenRepeatedANOVA { k, m, rho }),
                    Err(message) => Err(message),
                },
                Err(message) => Err(message),
            },
            Err(message) => Err(message),
        }
    } else if text == "withinRepeatedANOVA"@ {
        match repeated_measures_of(fields) {
            Ok(d) => Ok(
                TestKind::WithinRepeatedANOVA { k: d.k, m: d.m, rho: d.rho, epsilon: d.epsilon },
            ),
            Err(message) => Err(message),
        }
    } else if text == "withinBetweenRepeatedANOVA"@ {
        match repeated_measures_of(fields) {
            Ok(d) => Ok(
                TestKind::WithinBetweenRepeatedANOVA {
                    k: d.k,
                    m: d.m,
                    rho: d.rho,
                    epsilon: d.epsilon,
                },
            ),
            Err(message) => Err(message),
        }
    } else {
        Err(unknown_test(text))
    }
}

/// The distribution of the statistic of each test of the catalog, after
/// the G*Power 3 paper. With the sample size `n`, the effect size `es`,
/// `u = m / (1 + (m - 1) * rho)` between and `u = m / (1 - rho)` within the
/// subjects:
///
/// | test | family | degrees of freedom | noncentrality |
/// |---|---|---|---|
/// | one sample | t | `n - 1` | `sqrt(n) * es` |
/// | independent samples | t | `n - 2` | `sqrt(n / 2) * es` |
/// | goodness of fit | chi-squared | `df` | `es^2 * n` |
/// | deviation from zero | F | `p`, `n - p - 1` | `es^2 * n` |
/// | increase of R^2 | F | `q`, `n - rho - 1` | `es^2 * n` |
/// | one-way | F | `k - 1`, `n - k` | `es^2 * n` |
/// | two-way | F | `q`, `n - k` | `es^2 * n` |
/// | with covariates | F | `q`, `n - k - p - 1` | `es^2 * n` |
/// | repeated, between | F | `k - 1`, `n - k` | `es^2 * u * n` |
/// | repeated, within | F | `(m - 1) * eps`, `(n - k) * (m - 1) * eps` | `es^2 * u * n * eps` |
/// | repeated, interaction | F | `(k - 1) * (m - 1) * eps`, `(n - k) * (m - 1) * eps` | `es^2 * u * n * eps` |
pub open spec fn design_of(test: TestKind) -> Design {
    match test {
        TestKind::OneSampleTTest => Design::T { lost: 1, groups: 1 },
        TestKind::IndependentSamplesTTest => Design::T { lost: 2, groups: 2 },
        TestKind::GoodnessOfFitChisqTest { df } => Design::ChiSquared { df },
        TestKind::DeviationFromZeroMultipleRegression { n_predictors } => Design::F {
            numerator: n_predictors as i128,
            lost: (n_predictors + 1) as i128,
            spread: 1,
            gain: Gain::Unit,
            epsilon: None,
        },
        TestKind::IncreaseMultipleRegression { rho, q } => Design::F {
            numerator: q as i128,
            lost: (rho + 1) as i128,
            spread: 1,
            gain: Gain::Unit,
            epsilon: None,
        },
        TestKind::OneWayANOVA { k } => Design::F {
            numerator: (k - 1) as i128,
            lost: k as i128,
            spread: 1,
            gain: Gain::Unit,
            epsilon: None,
        },
        TestKind::TwoWayANOVA { k, q } => Design::F {
            numerator: q as i128,
            lost: k as i128,
            spread: 1,
            gain: Gain::Unit,
            epsilon: None,
        },
        TestKind::ANCOVA { k, q, p } => Design::F {
            numerator: q as i128,
            lost: (k + p + 1) as i128,
            spread: 1,
            gain: Gain::Unit,
            epsilon: None,
        },
        TestKind::BetweenRepeatedANOVA { k, m, rho } => Design::F {
            numerator: (k - 1) as i128,
            lost: k as i128,
            spread: 1,
            gain: Gain::Between { m, rho },
            epsilon: None,
        },
        TestKind::WithinRepeatedANOVA { k, m, rho, epsilon } => Design::F {
            numerator: (m - 1) as i128,
            lost: k as i128,
            spread: (m - 1) as i128,
            gain: Gain::Within { m, rho },
            epsilon: Some(epsilon),
        },
        TestKind::WithinBetweenRepeatedANOVA { k, m, rho, epsilon } => Design::F {
            numerator: ((k - 1) * (m - 1)) as i128,
            lost: k as i128,
            spread: (m - 1) as i128,
            gain: Gain::Within { m, rho },
            epsilon: Some(epsilon),
        },
    }
}

/// Reads the integer parameter `field` of the request `data`.
pub fn parse_i64(data: &Value, field: &str) -> (r: Result<i64, String>)
    ensures
        agrees(r, integer_field(members(*data), field@)),
{
    integer_entry(entry(data, field), field)
}

/// Reads the real parameter `field` of the request `data`.
pub fn parse_decimal_field(data: &Value, field: &str) -> (r: Result<Decimal, String>)
    ensures
        agrees(r, decimal_field(members(*data), field@)),
        r matches Ok(value) ==> value.scale <= MAX_SCALE,
{
    decimal_entry(entry(data, field), field)
}

/// The product of a 64-bit integer and another less one lies under the
/// thirty-eighth power of ten, and so fits in 128 bits.
proof fn lemma_product_fits(a: i64, b: i64)
    ensures
        -pow10(38) < a * (b - 1) < pow10(38),
        i128::MIN <= a * (b - 1) <= i128::MAX,
{
    lemma_pow10_fits(38);
    reveal_with_fuel(vstd::arithmetic::power::pow, 40);
    assert(pow10(38) == 100_000_000_000_000_000_000_000_000_000_000_000_000);
    assert(-0x8000_0000_0000_0001 * 0x8000_0000_0000_0001 <= a * (b - 1)
        <= 0x8000_0000_0000_0001 * 0x8000_0000_0000_0001) by (nonlinear_arith)
        requires
            -0x8000_0000_0000_0001 <= a <= 0x8000_0000_0000_0001,
            -0x8000_0000_0000_0001 <= b - 1 <= 0x8000_0000_0000_0001,
    ;
}

/// Checks the sphericity correction `epsilon` of a design with `m`
/// measurements against its bounds, `1 / (m - 1)` and `1`. The comparison
/// is exact.
pub fn checked_sphericity(m: i64, epsilon: Decimal) -> (r: Result<Decimal, String>)
    ensures
        agrees(r, sphericity_of(m, epsilon)),
{
    proof {
        lemma_product_fits(epsilon.units, m);
        lemma_pow10_fits(epsilon.scale as nat);
    }
    let scaled: i128 = epsilon.units as i128 * (m as i128 - 1);
    let below: bool;
    let above: bool;
    if epsilon.scale <= 38 {
        let one: i128 = pow10_i128(epsilon.scale as u32);
        below = if m > 1 {
            scaled < one
        } else if m == 1 {
            true
        } else {
            scaled > one
        };
        above = epsilon.units as i128 > one;
    } else {
        // Ten to this power lies over every product of two 64-bit integers.
        proof {
            lemma_pow10_fits(38);
            vstd::arithmetic::power::lemma_pow_increases(10, 38, epsilon.scale as nat);
        }
        below = m >= 1;
        above = false;
    }
    if below {
        Err(
            String::from_str(
                "lower bound of \u{3b5} corresponds to 1 / (number of measurements - 1)",
            ),
        )
    } else if above {
        Err(String::from_str("upper bound of \u{3b5} is 1"))
    } else {
        Ok(epsilon)
    }
}

/// Reads the structural parameters of a repeated-measures design with a
/// within factor from the request `data`: `k`, `m`, `rho` and `epsilon`, in
/// this order, and then checks `epsilon` against its bounds.
pub fn read_repeated_measures(data: &Value) -> (r: Result<RepeatedMeasures, String>)
    ensures
        agrees(r, repeated_measures_of(members(*data))),
{
    let k = match parse_i64(data, "k") {
        Ok(k) => k,
        Err(message) => {
            return Err(message);
        },
    };
    let m = match parse_i64(data, "m") {
        Ok(m) => m,
        Err(message) => {
            return Err(message);
        },
    };
    let rho = match parse_decimal_field(data, "rho") {
        Ok(rho) => rho,
        Err(message) => {
            return Err(message);
        },
    };
    let read = match parse_decimal_field(data, "epsilon") {
        Ok(read) => read,
        Err(message) => {
            return Err(message);
        },
    };
    match checked_sphericity(m, read) {
        Ok(epsilon) => Ok(RepeatedMeasures { k, m, rho, epsilon }),
        Err(message) => Err(message),
    }
}

impl Tail {
    /// The number of sides of the rejection region.
    pub open spec fn side_count(self) -> int {
        match self {
            Tail::OneSided => 1,
            Tail::TwoSided => 2,
        }
    }

    /// The number of sides of the rejection region: the significance level
    /// is this many times the probability of one tail. For `TwoSided` it is
    /// twice what it is for `OneSided`.
    pub fn sides(self) -> (r: u8)
        ensures
            r == self.side_count(),
    {
        match self {
            Tail::OneSided => 1,
            Tail::TwoSided => 2,
        }
    }

    /// The tail with `sides` sides, if there is one.
    pub fn from_sides(sides: i64) -> (r: Option<Tail>)
        ensures
            r == (if sides == 1 {
                Some(Tail::OneSided)
            } else if sides == 2 {
                Some(Tail::TwoSided)
            } else {
                None
            }),
            r matches Some(tail) ==> tail.side_count() == sides,
    {
        if sides == 1 {
            Some(Tail::OneSided)
        } else if sides == 2 {
            Some(Tail::TwoSided)
        } else {
            None
        }
    }

    /// Reads the tail of the request `data` from its member `tail`, which
    /// holds `1` or `2`. Any other request names no tail.
    pub fn from_json(data: &Value) -> (r: Option<Tail>)
        ensures
            r == tail_of(members(*data)),
    {
        match parse_i64(data, "tail") {
            Ok(sides) => Tail::from_sides(sides),
            Err(_) => None,
        }
    }
}

/// The product of two 64-bit integers, each less one, fits in 128 bits.
proof fn lemma_cells_fit(k: i64, m: i64)
    ensures
        i128::MIN <= (k - 1) * (m - 1) <= i128::MAX,
{
    assert(-0x8000_0000_0000_0001 * 0x8000_0000_0000_0001 <= (k - 1) * (m - 1)
        <= 0x8000_0000_0000_0001 * 0x8000_0000_0000_0001) by (nonlinear_arith)
        requires
            -0x8000_0000_0000_0001 <= k - 1 <= 0x8000_0000_0000_0001,
            -0x8000_0000_0000_0001 <= m - 1 <= 0x8000_0000_0000_0001,
    ;
}

impl TestKind {
    /// The distribution of the test statistic under the alternative
    /// hypothesis, as it depends on the sample size and the effect size.
    pub fn design(&self) -> (r: Design)
        ensures
            r == design_of(*self),
    {
        match *self {
            TestKind::OneSampleTTest => Design::T { lost: 1, groups: 1 },
            TestKind::IndependentSamplesTTest => Design::T { lost: 2, groups: 2 },
            TestKind::GoodnessOfFitChisqTest { df } => Design::ChiSquared { df },
            TestKind::DeviationFromZeroMultipleRegression { n_predictors } => Design::F {
                numerator: n_predictors as i128,
                lost: n_predictors as i128 + 1,
                spread: 1,
                gain: Gain::Unit,
                epsilon: None,
            },
            TestKind::IncreaseMultipleRegression { rho, q } => Design::F {
                numerator: q as i128,
                lost: rho as i128 + 1,
                spread: 1,
                gain: Gain::Unit,
                epsilon: None,
            },
            TestKind::OneWayANOVA { k } => Design::F {
                numerator: k as i128 - 1,
                lost: k as i128,
                spread: 1,
                gain: Gain::Unit,
                epsilon: None,
            },
            TestKind::TwoWayANOVA { k, q } => Design::F {
                numerator: q as i128,
                lost: k as i128,
                spread: 1,
                gain: Gain::Unit,
                epsilon: None,
            },
            TestKind::ANCOVA { k, q, p } => Design::F {
                numerator: q as i128,
                lost: k as i128 + p as i128 + 1,
                spread: 1,
                gain: Gain::Unit,
                epsilon: None,
            },
            TestKind::BetweenRepeatedANOVA { k, m, rho } => Design::F {
                numerator: k as i128 - 1,
                lost: k as i128,
                spread: 1,
                gain: Gain::Between { m, rho },
                epsilon: None,
            },
            TestKind::WithinRepeatedANOVA { k, m, rho, epsilon } => Design::F {
                numerator: m as i128 - 1,
                lost: k as i128,
                spread: m as i128 - 1,
                gain: Gain::Within { m, rho },
                epsilon: Some(epsilon),
            },
            TestKind::WithinBetweenRepeatedANOVA { k, m, rho, epsilon } => {
                proof {
                    lemma_cells_fit(k, m);
                }
                Design::F {
                    numerator: (k as i128 - 1) * (m as i128 - 1),
                    lost: k as i128,
                    spread: m as i128 - 1,
                    gain: Gain::Within { m, rho },
                    epsilon: Some(epsilon),
                }
            },
        }
    }

    /// Reads the test that the identifier `text` names, with its structural
    /// parameters from the request `data`.
    pub fn from_str(text: &str, data: &Value) -> (r: Result<TestKind, String>)
        ensures
            agrees(r, test_kind_of(text@, members(*data))),
    {
        if same_text(text, "oneSampleTTest") {
            Ok(TestKind::OneSampleTTest)
        } else if same_text(text, "independentSamplesTTest") {
            Ok(TestKind::IndependentSamplesTTest)
        } else if same_text(text, "goodnessOfFitChisqTest") {
            match parse_i64(data, "df") {
                Ok(df) => Ok(TestKind::GoodnessOfFitChisqTest { df }),
                Err(message) => Err(message),
            }
        } else if same_text(text, "deviationFromZeroMultipleRegression") {
            match parse_i64(data, "nPredictors") {
                Ok(n_predictors) => Ok(
                    TestKind::DeviationFromZeroMultipleRegression { n_predictors },
                ),
                Err(message) => Err(message),
            }
        } else if same_text(text, "increaseMultipleRegression") {
            match parse_i64(data, "rho") {
                Ok(rho) => match parse_i64(data, "q") {
                    Ok(q) => Ok(TestKind::IncreaseMultipleRegression { rho, q }),
                    Err(message) => Err(message),
                },
                Err(message) => Err(message),
            }
        } else if same_text(text, "oneWayANOVA") {
            match parse_i64(data, "k") {
                Ok(k) => Ok(TestKind::OneWayANOVA { k }),
                Err(message) => Err(message),
            }
        } else if same_text(text, "twoWayANOVA") {
            match parse_i64(data, "k") {
                Ok(k) => match parse_i64(data, "q") {
                    Ok(q) => Ok(TestKind::TwoWayANOVA { k, q }),
                    Err(message) => Err(message),
                },
                Err(message) => Err(message),
            }
        } else if same_text(text, "ANCOVA") {
            match parse_i64(data, "k") {
                Ok(k) => match parse_i64(data, "q") {
                    Ok(q) => match parse_i64(data, "p") {
                        Ok(p) => Ok(TestKind::ANCOVA { k, q, p }),
                        Err(message) => Err(message),
                    },
                    Err(message) => Err(message),
                },
                Err(message) => Err(message),
            }
        } else if same_text(text, "betweenRepeatedANOVA") {
            match parse_i64(data, "k") {
                Ok(k) => match parse_i64(data, "m") {
                    Ok(m) => match parse_decimal_field(data, "rho") {
                        Ok(rho) => Ok(TestKind::BetweenRepeatedANOVA { k, m, rho }),
                        Err(message) => Err(message),
                    },
                    Err(message) => Err(message),
                },
                Err(message) => Err(message),
            }
        } else if same_text(text, "withinRepeatedANOVA") {
            match read_repeated_measures(data) {
                Ok(d) => Ok(
                    TestKind::WithinRepeatedANOVA {
                        k: d.k,
                        m: d.m,
                        rho: d.rho,
                        epsilon: d.epsilon,
                    },
                ),
                Err(message) => Err(message),
            }
        } else if same_text(text, "withinBetweenRepeatedANOVA") {
            match read_repeated_measures(data) {
                Ok(d) => Ok(
                    TestKind::WithinBetweenRepeatedANOVA {
                        k: d.k,
                        m: d.m,
                        rho: d.rho,
                        epsilon: d.epsilon,
                    },
                ),
                Err(message) => Err(message),
            }
        } else {
            Err(String::from_str("Unknown test: ").concat(text))
        }
    }
}

} // verus!
