//! The special cases of the distribution functions.
//!
//! A distribution function resolves its special cases first, in a fixed
//! order, and only then sums a series or halves a bracket. The arithmetic is
//! real-valued and the caller's. What kind of number each argument is, the
//! caller finds out; which case then applies, and with it what a degenerate
//! argument gives, is settled here.

use vstd::prelude::*;

verus! {

/// What kind of number an argument is.
#[derive(Clone, Copy, Debug, PartialEq, Eq, Structural)]
pub enum Kind {
    NotANumber,
    NegInfinity,
    /// Finite and less than zero.
    Negative,
    Zero,
    /// Finite and greater than zero.
    Positive,
    PosInfinity,
}

/// Where a probability stands in the unit interval.
#[derive(Clone, Copy, Debug, PartialEq, Eq, Structural)]
pub enum Place {
    NotANumber,
    /// Less than zero.
    Below,
    Zero,
    /// Strictly between zero and one.
    Inside,
    One,
    /// Greater than one.
    Above,
}

/// A probability at an end of its scale: zero and one on the plain scale,
/// minus infinity and zero on the logarithmic scale.
#[derive(Clone, Copy, Debug, PartialEq, Eq, Structural)]
pub enum Level {
    NegInfinity,
    Zero,
    One,
}

/// An end of the support of a distribution.
#[derive(Clone, Copy, Debug, PartialEq, Eq, Structural)]
pub enum End {
    Left,
    Right,
}

impl Kind {
    /// The number is neither infinite nor not a number.
    pub open spec fn finite(self) -> bool {
        self == Kind::Negative || self == Kind::Zero || self == Kind::Positive
    }

    /// The number is less than zero.
    pub open spec fn below_zero(self) -> bool {
        self == Kind::NegInfinity || self == Kind::Negative
    }

    /// The number is greater than zero.
    pub open spec fn above_zero(self) -> bool {
        self == Kind::Positive || self == Kind::PosInfinity
    }

    /// Whether the number is neither infinite nor not a number.
    pub fn is_finite(self) -> (r: bool)
        ensures
            r == self.finite(),
    {
        match self {
            Kind::Negative | Kind::Zero | Kind::Positive => true,
            _ => false,
        }
    }

    /// Whether the number is less than zero.
    pub fn is_below_zero(self) -> (r: bool)
        ensures
            r == self.below_zero(),
    {
        match self {
            Kind::NegInfinity | Kind::Negative => true,
            _ => false,
        }
    }

    /// Whether the number is greater than zero.
    pub fn is_above_zero(self) -> (r: bool)
        ensures
            r == self.above_zero(),
    {
        match self {
            Kind::Positive | Kind::PosInfinity => true,
            _ => false,
        }
    }
}

/// The probability of what cannot be: zero, which is minus infinity on the
/// logarithmic scale.
pub open spec fn nothing(log_p: bool) -> Level {
    if log_p {
        Level::NegInfinity
    } else {
        Level::Zero
    }
}

/// The probability of what is sure: one, which is zero on the logarithmic
/// scale.
pub open spec fn everything(log_p: bool) -> Level {
    if log_p {
        Level::Zero
    } else {
        Level::One
    }
}

/// The probability of what cannot be, on the scale asked for.
pub fn r_d__0(log_p: bool) -> (r: Level)
    ensures
        r == nothing(log_p),
{
    if log_p {
        Level::NegInfinity
    } else {
        Level::Zero
    }
}

/// The probability of what is sure, on the scale asked for.
pub fn r_d__1(log_p: bool) -> (r: Level)
    ensures
        r == everything(log_p),
{
    if log_p {
        Level::Zero
    } else {
        Level::One
    }
}

/// The probability of the tail at the left end of the support: nothing for
/// the lower tail, everything for the upper tail.
pub fn r_dt_0(lower_tail: bool, log_p: bool) -> (r: Level)
    ensures
        r == (if lower_tail {
            nothing(log_p)
        } else {
            everything(log_p)
        }),
{
    if lower_tail {
        r_d__0(log_p)
    } else {
        r_d__1(log_p)
    }
}

/// The probability of the tail at the right end of the support:
/// everything for the lower tail, nothing for the upper tail.
pub fn r_dt_1(lower_tail: bool, log_p: bool) -> (r: Level)
    ensures
        r == (if lower_tail {
            everything(log_p)
        } else {
            nothing(log_p)
        }),
{
    if lower_tail {
        r_d__1(log_p)
    } else {
        r_d__0(log_p)
    }
}

/// What a quantile function gives for a probability that is not inside the
/// unit interval.
#[derive(Clone, Copy, Debug, PartialEq, Eq, Structural)]
pub enum Boundary {
    /// The probability is none: the quantile is not a number.
    NotANumber,
    /// The quantile is an end of the support.
    At(End),
    /// The probability is inside the unit interval: the quantile has to be
    /// searched.
    Inside,
}

/// What a quantile function gives for the probability `p` of the given
/// tail: nothing for what is no probability, the end of the support that
/// the tail starts from for zero and the other end for one.
pub open spec fn boundary_of(p: Place, lower_tail: bool) -> Boundary {
    match p {
        Place::NotANumber | Place::Below | Place::Above => Boundary::NotANumber,
        Place::Zero => Boundary::At(
            if lower_tail {
                End::Left
            } else {
                End::Right
            },
        ),
        Place::One => Boundary::At(
            if lower_tail {
                End::Right
            } else {
                End::Left
            },
        ),
        Place::Inside => Boundary::Inside,
    }
}

/// Resolves a probability at or beyond the ends of the unit interval for a
/// quantile function.
pub fn r_q_p01_boundaries(p: Place, lower_tail: bool) -> (r: Boundary)
    ensures
        r == boundary_of(p, lower_tail),
{
    match p {
        Place::NotANumber | Place::Below | Place::Above => Boundary::NotANumber,
        Place::Zero => if lower_tail {
            Boundary::At(End::Left)
        } else {
            Boundary::At(End::Right)
        },
        Place::One => if lower_tail {
            Boundary::At(End::Right)
        } else {
            Boundary::At(End::Left)
        },
        Place::Inside => Boundary::Inside,
    }
}

/// What the central t distribution function has to know of its arguments.
#[derive(Clone, Copy, Debug, PartialEq, Eq, Structural)]
pub struct PtFacts {
    /// The point at which the function is asked.
    pub x: Kind,
    /// The degrees of freedom.
    pub df: Kind,
    /// The square of the point is so much larger than the degrees of
    /// freedom that their ratio has to stay on the logarithmic scale.
    pub far: bool,
    /// The degrees of freedom are more than the square of the point.
    pub df_over_square: bool,
    pub lower_tail: bool,
    pub log_p: bool,
}

/// How the central t distribution function comes to its value.
#[derive(Clone, Copy, Debug, PartialEq, Eq, Structural)]
pub enum PtCase {
    /// An argument is not a number, or the point is finite and the degrees
    /// of freedom are not positive.
    NotANumber,
    /// The point is infinite: the value is an end of the scale.
    Sure(Level),
    /// The degrees of freedom are infinite: the normal distribution.
    Normal,
    /// The two tails beyond the point and its mirror image come from a
    /// formula on the logarithmic scale. The value is half of them, or what
    /// that leaves of everything where `rest`.
    LogTail { rest: bool },
    /// The two tails come from the incomplete beta function at the share of
    /// the squared point, upper tail.
    BetaOfSquare { rest: bool },
    /// The two tails come from the incomplete beta function at the share of
    /// the degrees of freedom, lower tail.
    BetaOfFreedom { rest: bool },
}

/// Whether the tail asked for at the point `x` is the rest that one tail
/// beyond `x` leaves: the lower tail is right of zero, the upper tail is at
/// zero and left of it.
pub open spec fn is_rest(x: Kind, lower_tail: bool) -> bool {
    if x.above_zero() {
        lower_tail
    } else {
        !lower_tail
    }
}

/// The case of the central t distribution function, in the order in which
/// the cases are resolved.
pub open spec fn pt_case_of(facts: PtFacts) -> PtCase {
    if facts.x == Kind::NotANumber || facts.df == Kind::NotANumber {
        PtCase::NotANumber
    } else if facts.x == Kind::NegInfinity {
        PtCase::Sure(if facts.lower_tail {
            nothing(facts.log_p)
        } else {
            everything(facts.log_p)
        })
    } else if facts.x == Kind::PosInfinity {
        PtCase::Sure(if facts.lower_tail {
            everything(facts.log_p)
        } else {
            nothing(facts.log_p)
        })
    } else if !facts.df.above_zero() {
        PtCase::NotANumber
    } else if facts.df == Kind::PosInfinity {
        PtCase::Normal
    } else if facts.far {
        PtCase::LogTail { rest: is_rest(facts.x, facts.lower_tail) }
    } else if facts.df_over_square {
        PtCase::BetaOfSquare { rest: is_rest(facts.x, facts.lower_tail) }
    } else {
        PtCase::BetaOfFreedom { rest: is_rest(facts.x, facts.lower_tail) }
    }
}

/// Resolves the case of the central t distribution function.
pub fn pt_case(facts: PtFacts) -> (r: PtCase)
    ensures
        r == pt_case_of(facts),
{
    if facts.x == Kind::NotANumber || facts.df == Kind::NotANumber {
        return PtCase::NotANumber;
    }
    if !facts.x.is_finite() {
        return if facts.x.is_below_zero() {
            PtCase::Sure(r_dt_0(facts.lower_tail, facts.log_p))
        } else {
            PtCase::Sure(r_dt_1(facts.lower_tail, facts.log_p))
        };
    }
    if !facts.df.is_above_zero() {
        return PtCase::NotANumber;
    }
    if !facts.df.is_finite() {
        return PtCase::Normal;
    }
    let rest = if facts.x.is_above_zero() {
        facts.lower_tail
    } else {
        !facts.lower_tail
    };
    if facts.far {
        PtCase::LogTail { rest }
    } else if facts.df_over_square {
        PtCase::BetaOfSquare { rest }
    } else {
        PtCase::BetaOfFreedom { rest }
    }
}

/// What the noncentral t distribution function has to know of its
/// arguments.
#[derive(Clone, Copy, Debug, PartialEq, Eq, Structural)]
pub struct PntFacts {
    /// The point at which the function is asked.
    pub t: Kind,
    /// The degrees of freedom.
    pub df: Kind,
    /// The noncentrality parameter.
    pub ncp: Kind,
    /// The noncentrality parameter is so large that nothing is left in the
    /// left tail.
    pub ncp_large: bool,
    /// The degrees of freedom or the noncentrality parameter are so large
    /// that the distribution is as good as normal.
    pub nearly_normal: bool,
    pub lower_tail: bool,
    pub log_p: bool,
}

/// How the noncentral t distribution function comes to its value.
#[derive(Clone, Copy, Debug, PartialEq, Eq, Structural)]
pub enum PntCase {
    /// An argument is not a number, or the point is finite and the degrees
    /// of freedom are not positive.
    NotANumber,
    /// There is no noncentrality: the central t distribution function,
    /// which resolves its own cases.
    Central,
    /// The value is an end of the scale.
    Sure(Level),
    /// The normal approximation, at the mirrored point with the mirrored
    /// noncentrality where `mirrored`.
    Normal { mirrored: bool },
    /// The twin series, at the mirrored point with the mirrored
    /// noncentrality where `mirrored`.
    Series { mirrored: bool },
}

/// The case of the noncentral t distribution function, in the order in
/// which the cases are resolved.
pub open spec fn pnt_case_of(facts: PntFacts) -> PntCase {
    if facts.t == Kind::NotANumber || facts.df == Kind::NotANumber || facts.ncp
        == Kind::NotANumber {
        PntCase::NotANumber
    } else if facts.ncp == Kind::Zero {
        PntCase::Central
    } else if facts.t == Kind::NegInfinity {
        PntCase::Sure(if facts.lower_tail {
            nothing(facts.log_p)
        } else {
            everything(facts.log_p)
        })
    } else if facts.t == Kind::PosInfinity {
        PntCase::Sure(if facts.lower_tail {
            everything(facts.log_p)
        } else {
            nothing(facts.log_p)
        })
    } else if !facts.df.above_zero() {
        PntCase::NotANumber
    } else if facts.t == Kind::Negative && facts.ncp_large && !(facts.log_p && facts.lower_tail) {
        PntCase::Sure(if facts.lower_tail {
            nothing(facts.log_p)
        } else {
            everything(facts.log_p)
        })
    } else if facts.nearly_normal {
        PntCase::Normal { mirrored: facts.t == Kind::Negative }
    } else {
        PntCase::Series { mirrored: facts.t == Kind::Negative }
    }
}

/// Resolves the case of the noncentral t distribution function.
pub fn pnt_case(facts: PntFacts) -> (r: PntCase)
    ensures
        r == pnt_case_of(facts),
{
    if facts.t == Kind::NotANumber || facts.df == Kind::NotANumber || facts.ncp
        == Kind::NotANumber {
        return PntCase::NotANumber;
    }
    if facts.ncp == Kind::Zero {
        return PntCase::Central;
    }
    if !facts.t.is_finite() {
        return if facts.t.is_below_zero() {
            PntCase::Sure(r_dt_0(facts.lower_tail, facts.log_p))
        } else {
            PntCase::Sure(r_dt_1(facts.lower_tail, facts.log_p))
        };
    }
    if !facts.df.is_above_zero() {
        return PntCase::NotANumber;
    }
    let mirrored = facts.t.is_below_zero();
    if mirrored && facts.ncp_large && (!facts.log_p || !facts.lower_tail) {
        return PntCase::Sure(r_dt_0(facts.lower_tail, facts.log_p));
    }
    if facts.nearly_normal {
        PntCase::Normal { mirrored }
    } else {
        PntCase::Series { mirrored }
    }
}

/// What a distribution function on the half line from zero has to know of
/// its arguments: the chi-squared, F and beta distribution functions.
#[derive(Clone, Copy, Debug, PartialEq, Eq, Structural)]
pub struct HalfLineFacts {
    /// The point at which the function is asked.
    pub x: Kind,
    /// The point is at or beyond the right end of the support.
    pub at_right_end: bool,
    /// The degrees of freedom, or the first shape parameter.
    pub df: Kind,
    /// The second degrees of freedom or shape parameter, if there is one.
    pub second_df: Option<Kind>,
    /// The noncentrality parameter.
    pub ncp: Kind,
    pub lower_tail: bool,
    pub log_p: bool,
}

/// How a distribution function on the half line comes to its value.
#[derive(Clone, Copy, Debug, PartialEq, Eq, Structural)]
pub enum HalfLineCase {
    /// An argument is not a number, a degree of freedom is not positive, or
    /// the noncentrality is negative or infinite.
    NotANumber,
    /// The point is at or beyond an end of the support: the value is an end
    /// of the scale.
    Sure(Level),
    /// There is no noncentrality: the central distribution function.
    Central,
    /// The series of the noncentral distribution function.
    Series,
}

/// `df` can be a degree of freedom: it is a number greater than zero.
pub open spec fn is_freedom(df: Kind) -> bool {
    df.above_zero()
}

/// Every degree of freedom of a distribution with one or two of them is a
/// number greater than zero.
pub open spec fn are_freedoms(df: Kind, second_df: Option<Kind>) -> bool {
    is_freedom(df) && match second_df {
        Some(second) => is_freedom(second),
        None => true,
    }
}

/// The case of a distribution function on the half line, in the order in
/// which the cases are resolved.
pub open spec fn half_line_case_of(facts: HalfLineFacts) -> HalfLineCase {
    if facts.x == Kind::NotANumber || facts.ncp == Kind::NotANumber {
        HalfLineCase::NotANumber
    } else if !are_freedoms(facts.df, facts.second_df) {
        HalfLineCase::NotANumber
    } else if facts.ncp.below_zero() || facts.ncp == Kind::PosInfinity {
        HalfLineCase::NotANumber
    } else if !facts.x.above_zero() {
        HalfLineCase::Sure(if facts.lower_tail {
            nothing(facts.log_p)
        } else {
            everything(facts.log_p)
        })
    } else if facts.x == Kind::PosInfinity || facts.at_right_end {
        HalfLineCase::Sure(if facts.lower_tail {
            everything(facts.log_p)
        } else {
            nothing(facts.log_p)
        })
    } else if facts.ncp == Kind::Zero {
        HalfLineCase::Central
    } else {
        HalfLineCase::Series
    }
}

/// Whether every degree of freedom of a distribution with one or two of
/// them is a number greater than zero.
pub fn check_freedoms(df: Kind, second_df: Option<Kind>) -> (r: bool)
    ensures
        r == are_freedoms(df, second_df),
{
    df.is_above_zero() && match second_df {
        Some(second) => second.is_above_zero(),
        None => true,
    }
}

/// Resolves the case of a distribution function on the half line.
pub fn half_line_case(facts: HalfLineFacts) -> (r: HalfLineCase)
    ensures
        r == half_line_case_of(facts),
{
    if facts.x == Kind::NotANumber || facts.ncp == Kind::NotANumber {
        return HalfLineCase::NotANumber;
    }
    if !check_freedoms(facts.df, facts.second_df) {
        return HalfLineCase::NotANumber;
    }
    if facts.ncp.is_below_zero() || facts.ncp == Kind::PosInfinity {
        return HalfLineCase::NotANumber;
    }
    if !facts.x.is_above_zero() {
        return HalfLineCase::Sure(r_dt_0(facts.lower_tail, facts.log_p));
    }
    if facts.x == Kind::PosInfinity || facts.at_right_end {
        return HalfLineCase::Sure(r_dt_1(facts.lower_tail, facts.log_p));
    }
    if facts.ncp == Kind::Zero {
        HalfLineCase::Central
    } else {
        HalfLineCase::Series
    }
}

/// What a quantile function has to know of its arguments.
#[derive(Clone, Copy, Debug, PartialEq, Eq, Structural)]
pub struct QuantileFacts {
    /// The probability, in the tail asked for.
    pub p: Place,
    /// The degrees of freedom, or the first shape parameter.
    pub df: Kind,
    /// The second degrees of freedom or shape parameter, if there is one.
    pub second_df: Option<Kind>,
    /// Every degree of freedom is at least one.
    pub df_at_least_one: bool,
    /// The noncentrality parameter.
    pub ncp: Kind,
    /// The distribution lies on the whole line and takes a noncentrality
    /// of either sign, as the t distribution does; the others lie on the
    /// half line from zero and take none below zero.
    pub on_line: bool,
    /// The probability of the lower tail is within rounding of one.
    pub nearly_one: bool,
    pub lower_tail: bool,
}

/// How a quantile function comes to its value.
#[derive(Clone, Copy, Debug, PartialEq, Eq, Structural)]
pub enum QuantileCase {
    /// An argument is not a number, a degree of freedom is not positive, or
    /// the noncentrality is one that the distribution does not take.
    NotANumber,
    /// There is no noncentrality: the central quantile function.
    Central,
    /// The probability lies at or beyond an end of the unit interval, or
    /// within rounding of one: the quantile is an end of the support.
    At(End),
    /// The quantile is searched: a bracket is widened around it and then
    /// halved.
    Search,
}

/// The end of the support at which the quantile of the probability `p` of
/// the given tail stands, where `p` lies at or beyond an end of the unit
/// interval: the end that the tail starts from at zero and below it, the
/// other end at one and above it.
pub open spec fn end_of(p: Place, lower_tail: bool) -> Option<End> {
    match p {
        Place::Below | Place::Zero => Some(
            if lower_tail {
                End::Left
            } else {
                End::Right
            },
        ),
        Place::One | Place::Above => Some(
            if lower_tail {
                End::Right
            } else {
                End::Left
            },
        ),
        Place::Inside | Place::NotANumber => None,
    }
}

/// Finds the end of the support at which the quantile of a probability at
/// or beyond an end of the unit interval stands.
pub fn end_at(p: Place, lower_tail: bool) -> (r: Option<End>)
    ensures
        r == end_of(p, lower_tail),
{
    match p {
        Place::Below | Place::Zero => if lower_tail {
            Some(End::Left)
        } else {
            Some(End::Right)
        },
        Place::One | Place::Above => if lower_tail {
            Some(End::Right)
        } else {
            Some(End::Left)
        },
        Place::Inside | Place::NotANumber => None,
    }
}

/// The case of a quantile function, in the order in which the cases are
/// resolved: what is not a number first, then the central function, then a
/// probability at or beyond an end of the unit interval, and only then the
/// search.
pub open spec fn quantile_case_of(facts: QuantileFacts) -> QuantileCase {
    if facts.p == Place::NotANumber || facts.ncp == Kind::NotANumber {
        QuantileCase::NotANumber
    } else if !are_freedoms(facts.df, facts.second_df) {
        QuantileCase::NotANumber
    } else if !facts.on_line && (facts.ncp.below_zero() || facts.ncp == Kind::PosInfinity) {
        QuantileCase::NotANumber
    } else if facts.ncp == Kind::Zero && facts.df_at_least_one {
        QuantileCase::Central
    } else {
        match end_of(facts.p, facts.lower_tail) {
            Some(end) => QuantileCase::At(end),
            None => if facts.nearly_one {
                QuantileCase::At(End::Right)
            } else {
                QuantileCase::Search
            },
        }
    }
}

/// Resolves the case of a quantile function.
pub fn quantile_case(facts: QuantileFacts) -> (r: QuantileCase)
    ensures
        r == quantile_case_of(facts),
{
    if facts.p == Place::NotANumber || facts.ncp == Kind::NotANumber {
        return QuantileCase::NotANumber;
    }
    if !check_freedoms(facts.df, facts.second_df) {
        return QuantileCase::NotANumber;
    }
    if !facts.on_line && (facts.ncp.is_below_zero() || facts.ncp == Kind::PosInfinity) {
        return QuantileCase::NotANumber;
    }
    if facts.ncp == Kind::Zero && facts.df_at_least_one {
        return QuantileCase::Central;
    }
    match end_at(facts.p, facts.lower_tail) {
        Some(end) => QuantileCase::At(end),
        None => if facts.nearly_one {
            QuantileCase::At(End::Right)
        } else {
            QuantileCase::Search
        },
    }
}

/// The two tails at a point are complements: where one is nothing the
/// other is everything, at an infinite point and far out on the left.
pub proof fn lemma_tails_complement(facts: PntFacts, other: PntFacts)
    requires
        other == (PntFacts { lower_tail: !facts.lower_tail, ..facts }),
        !facts.log_p,
    ensures
        pnt_case_of(facts) == PntCase::Sure(Level::Zero) <==> pnt_case_of(other) == PntCase::Sure(
            Level::One,
        ),
        pnt_case_of(facts) == PntCase::Sure(Level::One) <==> pnt_case_of(other) == PntCase::Sure(
            Level::Zero,
        ),
{
}

/// The two tails of the central distribution at a point are complements
/// too, and beside an infinite point the value in one tail is the rest of
/// the value in the other.
pub proof fn lemma_central_tails_complement(facts: PtFacts, other: PtFacts, rest: bool)
    requires
        other == (PtFacts { lower_tail: !facts.lower_tail, ..facts }),
        !facts.log_p,
    ensures
        pt_case_of(facts) == PtCase::Sure(Level::Zero) <==> pt_case_of(other) == PtCase::Sure(
            Level::One,
        ),
        pt_case_of(facts) == PtCase::Sure(Level::One) <==> pt_case_of(other) == PtCase::Sure(
            Level::Zero,
        ),
        pt_case_of(facts) == (PtCase::BetaOfSquare { rest }) <==> pt_case_of(other) == (
        PtCase::BetaOfSquare { rest: !rest }),
        pt_case_of(facts) == (PtCase::BetaOfFreedom { rest }) <==> pt_case_of(other) == (
        PtCase::BetaOfFreedom { rest: !rest }),
        pt_case_of(facts) == (PtCase::LogTail { rest }) <==> pt_case_of(other) == (
        PtCase::LogTail { rest: !rest }),
{
}

/// Without noncentrality the noncentral t distribution function is the
/// central one, whatever the point and the degrees of freedom.
pub proof fn lemma_central(facts: PntFacts)
    requires
        facts.ncp == Kind::Zero,
        facts.t != Kind::NotANumber,
        facts.df != Kind::NotANumber,
    ensures
        pnt_case_of(facts) == PntCase::Central,
{
}

/// The noncentral t distribution function is zero at minus infinity and one
/// at plus infinity, whatever the degrees of freedom and the noncentrality.
pub proof fn lemma_limits(facts: PntFacts)
    requires
        facts.df != Kind::NotANumber,
        facts.ncp != Kind::NotANumber,
        facts.ncp != Kind::Zero,
        facts.lower_tail,
        !facts.log_p,
    ensures
        facts.t == Kind::NegInfinity ==> pnt_case_of(facts) == PntCase::Sure(Level::Zero),
        facts.t == Kind::PosInfinity ==> pnt_case_of(facts) == PntCase::Sure(Level::One),
{
}

/// The central t distribution function is zero at minus infinity and one
/// at plus infinity, whatever the degrees of freedom.
pub proof fn lemma_central_limits(facts: PtFacts)
    requires
        facts.df != Kind::NotANumber,
        facts.lower_tail,
        !facts.log_p,
    ensures
        facts.x == Kind::NegInfinity ==> pt_case_of(facts) == PtCase::Sure(Level::Zero),
        facts.x == Kind::PosInfinity ==> pt_case_of(facts) == PtCase::Sure(Level::One),
{
}

/// Short of the central function, the quantile of a probability at or
/// beyond an end of the unit interval is an end of the support, and no
/// distribution function is asked: the left end at zero and below it, the
/// right end at one, above it and within rounding of it.
pub proof fn lemma_quantile_ends(facts: QuantileFacts)
    requires
        facts.p != Place::NotANumber,
        are_freedoms(facts.df, facts.second_df),
        facts.ncp.finite(),
        facts.on_line || !facts.ncp.below_zero(),
        facts.ncp != Kind::Zero || !facts.df_at_least_one,
        facts.lower_tail,
    ensures
        facts.p == Place::Zero || facts.p == Place::Below ==> quantile_case_of(facts)
            == QuantileCase::At(End::Left),
        facts.p == Place::One || facts.p == Place::Above || (facts.p == Place::Inside
            && facts.nearly_one) ==> quantile_case_of(facts) == QuantileCase::At(End::Right),
{
}

/// A quantile function never searches for what no search can find: with
/// an argument that is not a number, without positive degrees of freedom or
/// for a probability at or beyond the ends of the unit interval, the case is
/// settled.
pub proof fn lemma_search_is_sound(facts: QuantileFacts)
    requires
        quantile_case_of(facts) == QuantileCase::Search,
    ensures
        facts.p == Place::Inside,
        are_freedoms(facts.df, facts.second_df),
        facts.ncp != Kind::NotANumber,
        !facts.on_line ==> facts.ncp == Kind::Zero || facts.ncp == Kind::Positive,
        !facts.nearly_one,
{
}

/// A distribution function on the half line is zero up to the left end of
/// its support and one from the right end on, for every distribution that
/// there is.
pub proof fn lemma_half_line_limits(facts: HalfLineFacts)
    requires
        are_freedoms(facts.df, facts.second_df),
        facts.ncp == Kind::Zero || facts.ncp == Kind::Positive,
        facts.lower_tail,
        !facts.log_p,
    ensures
        facts.x == Kind::NegInfinity || facts.x == Kind::Negative || facts.x == Kind::Zero
            ==> half_line_case_of(facts) == HalfLineCase::Sure(Level::Zero),
        facts.x == Kind::PosInfinity ==> half_line_case_of(facts) == HalfLineCase::Sure(
            Level::One,
        ),
{
}

} // verus!
