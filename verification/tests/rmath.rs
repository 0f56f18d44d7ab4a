use poweranalyses::rmath::{
    check_freedoms, end_at, half_line_case, r_d__0, r_d__1, HalfLineCase, HalfLineFacts,
    pnt_case, pt_case, quantile_case, r_dt_0, r_dt_1, r_q_p01_boundaries, Boundary, End, Kind, Level,
    Place, PntCase, PntFacts, PtCase, PtFacts, QuantileCase, QuantileFacts,
};

const KINDS: [Kind; 6] = [
    Kind::NotANumber,
    Kind::NegInfinity,
    Kind::Negative,
    Kind::Zero,
    Kind::Positive,
    Kind::PosInfinity,
];

const PLACES: [Place; 6] =
    [Place::NotANumber, Place::Below, Place::Zero, Place::Inside, Place::One, Place::Above];

const BOTH: [bool; 2] = [false, true];

#[test]
fn knows_the_kinds_of_numbers() {
    assert!(Kind::Zero.is_finite());
    assert!(Kind::Negative.is_finite());
    assert!(Kind::Positive.is_finite());
    assert!(!Kind::NotANumber.is_finite());
    assert!(!Kind::NegInfinity.is_finite());
    assert!(!Kind::PosInfinity.is_finite());
    assert!(Kind::NegInfinity.is_below_zero());
    assert!(Kind::Negative.is_below_zero());
    assert!(!Kind::Zero.is_below_zero());
    assert!(!Kind::NotANumber.is_below_zero());
    assert!(Kind::PosInfinity.is_above_zero());
    assert!(Kind::Positive.is_above_zero());
    assert!(!Kind::Zero.is_above_zero());
    assert!(!Kind::NotANumber.is_above_zero());
}

#[test]
fn nothing_and_everything_on_both_scales() {
    assert_eq!(r_d__0(false), Level::Zero);
    assert_eq!(r_d__0(true), Level::NegInfinity);
    assert_eq!(r_d__1(false), Level::One);
    assert_eq!(r_d__1(true), Level::Zero);
}

#[test]
fn the_ends_of_the_probability_scale() {
    assert_eq!(r_dt_0(true, false), Level::Zero);
    assert_eq!(r_dt_0(false, false), Level::One);
    assert_eq!(r_dt_0(true, true), Level::NegInfinity);
    assert_eq!(r_dt_0(false, true), Level::Zero);
    assert_eq!(r_dt_1(true, false), Level::One);
    assert_eq!(r_dt_1(false, false), Level::Zero);
    assert_eq!(r_dt_1(true, true), Level::Zero);
    assert_eq!(r_dt_1(false, true), Level::NegInfinity);
}

#[test]
fn the_tails_are_complements() {
    for lower_tail in BOTH {
        for log_p in BOTH {
            assert_eq!(r_dt_1(lower_tail, log_p), r_dt_0(!lower_tail, log_p));
            assert_ne!(r_dt_1(lower_tail, log_p), r_dt_0(lower_tail, log_p));
        }
    }
}

#[test]
fn the_quantiles_at_the_ends_of_the_unit_interval() {
    assert_eq!(r_q_p01_boundaries(Place::Zero, true), Boundary::At(End::Left));
    assert_eq!(r_q_p01_boundaries(Place::One, true), Boundary::At(End::Right));
    assert_eq!(r_q_p01_boundaries(Place::Zero, false), Boundary::At(End::Right));
    assert_eq!(r_q_p01_boundaries(Place::One, false), Boundary::At(End::Left));
    for lower_tail in BOTH {
        assert_eq!(r_q_p01_boundaries(Place::Inside, lower_tail), Boundary::Inside);
        assert_eq!(r_q_p01_boundaries(Place::Below, lower_tail), Boundary::NotANumber);
        assert_eq!(r_q_p01_boundaries(Place::Above, lower_tail), Boundary::NotANumber);
        assert_eq!(r_q_p01_boundaries(Place::NotANumber, lower_tail), Boundary::NotANumber);
    }
}

fn pt_facts(x: Kind, df: Kind) -> PtFacts {
    PtFacts { x, df, far: false, df_over_square: false, lower_tail: true, log_p: false }
}

#[test]
fn the_central_function_resolves_its_cases_in_order() {
    // Nothing counts beside an argument that is not a number.
    for other in KINDS {
        for far in BOTH {
            let facts = PtFacts { far, ..pt_facts(Kind::NotANumber, other) };
            assert_eq!(pt_case(facts), PtCase::NotANumber);
            let facts = PtFacts { far, ..pt_facts(other, Kind::NotANumber) };
            assert_eq!(pt_case(facts), PtCase::NotANumber);
        }
    }
    // An infinite point comes before the degrees of freedom.
    for df in [Kind::NegInfinity, Kind::Negative, Kind::Zero, Kind::Positive, Kind::PosInfinity] {
        assert_eq!(pt_case(pt_facts(Kind::NegInfinity, df)), PtCase::Sure(Level::Zero));
        assert_eq!(pt_case(pt_facts(Kind::PosInfinity, df)), PtCase::Sure(Level::One));
    }
    // At a finite point the degrees of freedom have to be positive.
    for df in [Kind::NegInfinity, Kind::Negative, Kind::Zero] {
        for x in [Kind::Negative, Kind::Zero, Kind::Positive] {
            for far in BOTH {
                let facts = PtFacts { far, df_over_square: far, ..pt_facts(x, df) };
                assert_eq!(pt_case(facts), PtCase::NotANumber);
            }
        }
    }
    // An infinite point comes before infinite degrees of freedom.
    assert_eq!(pt_case(pt_facts(Kind::NegInfinity, Kind::PosInfinity)), PtCase::Sure(Level::Zero));
    assert_eq!(pt_case(pt_facts(Kind::PosInfinity, Kind::PosInfinity)), PtCase::Sure(Level::One));
    // Infinite degrees of freedom come before the size of the point.
    for x in [Kind::Negative, Kind::Zero, Kind::Positive] {
        let facts = PtFacts { far: true, ..pt_facts(x, Kind::PosInfinity) };
        assert_eq!(pt_case(facts), PtCase::Normal);
    }
    // A far point comes before the choice of the beta function.
    let facts = PtFacts { far: true, df_over_square: true, ..pt_facts(Kind::Positive, Kind::Positive) };
    assert_eq!(pt_case(facts), PtCase::LogTail { rest: true });
    let facts = PtFacts { df_over_square: true, ..pt_facts(Kind::Positive, Kind::Positive) };
    assert_eq!(pt_case(facts), PtCase::BetaOfSquare { rest: true });
    assert_eq!(
        pt_case(pt_facts(Kind::Positive, Kind::Positive)),
        PtCase::BetaOfFreedom { rest: true }
    );
}

#[test]
fn the_central_function_at_infinity() {
    for df in [Kind::Positive, Kind::PosInfinity] {
        for (lower_tail, log_p, left, right) in [
            (true, false, Level::Zero, Level::One),
            (false, false, Level::One, Level::Zero),
            (true, true, Level::NegInfinity, Level::Zero),
            (false, true, Level::Zero, Level::NegInfinity),
        ] {
            let facts = PtFacts { lower_tail, log_p, ..pt_facts(Kind::NegInfinity, df) };
            assert_eq!(pt_case(facts), PtCase::Sure(left));
            let facts = PtFacts { lower_tail, log_p, ..pt_facts(Kind::PosInfinity, df) };
            assert_eq!(pt_case(facts), PtCase::Sure(right));
        }
    }
}

#[test]
fn the_central_function_folds_the_tails_at_zero() {
    for (x, lower_tail, rest) in [
        (Kind::Positive, true, true),
        (Kind::Positive, false, false),
        (Kind::Zero, true, false),
        (Kind::Zero, false, true),
        (Kind::Negative, true, false),
        (Kind::Negative, false, true),
    ] {
        for log_p in BOTH {
            let facts = PtFacts { lower_tail, log_p, ..pt_facts(x, Kind::Positive) };
            assert_eq!(pt_case(facts), PtCase::BetaOfFreedom { rest });
            let facts = PtFacts { df_over_square: true, ..facts };
            assert_eq!(pt_case(facts), PtCase::BetaOfSquare { rest });
            let facts = PtFacts { far: true, ..facts };
            assert_eq!(pt_case(facts), PtCase::LogTail { rest });
        }
    }
}

fn pnt_facts(t: Kind, df: Kind, ncp: Kind) -> PntFacts {
    PntFacts { t, df, ncp, ncp_large: false, nearly_normal: false, lower_tail: true, log_p: false }
}

#[test]
fn the_noncentral_function_resolves_its_cases_in_order() {
    for a in KINDS {
        for b in KINDS {
            assert_eq!(pnt_case(pnt_facts(Kind::NotANumber, a, b)), PntCase::NotANumber);
            assert_eq!(pnt_case(pnt_facts(a, Kind::NotANumber, b)), PntCase::NotANumber);
            assert_eq!(pnt_case(pnt_facts(a, b, Kind::NotANumber)), PntCase::NotANumber);
        }
    }
    // No noncentrality comes before everything else: the central function
    // resolves the point and the degrees of freedom itself.
    for t in [Kind::NegInfinity, Kind::Negative, Kind::Zero, Kind::Positive, Kind::PosInfinity] {
        for df in [Kind::NegInfinity, Kind::Negative, Kind::Zero, Kind::Positive, Kind::PosInfinity] {
            let facts = PntFacts { nearly_normal: true, ..pnt_facts(t, df, Kind::Zero) };
            assert_eq!(pnt_case(facts), PntCase::Central);
        }
    }
    // An infinite point comes before the degrees of freedom.
    for df in [Kind::NegInfinity, Kind::Negative, Kind::Zero, Kind::Positive, Kind::PosInfinity] {
        for ncp in [Kind::Negative, Kind::Positive] {
            assert_eq!(pnt_case(pnt_facts(Kind::NegInfinity, df, ncp)), PntCase::Sure(Level::Zero));
            assert_eq!(pnt_case(pnt_facts(Kind::PosInfinity, df, ncp)), PntCase::Sure(Level::One));
        }
    }
    // At a finite point the degrees of freedom have to be positive.
    for df in [Kind::NegInfinity, Kind::Negative, Kind::Zero] {
        for t in [Kind::Negative, Kind::Zero, Kind::Positive] {
            for flag in BOTH {
                let facts = PntFacts {
                    ncp_large: flag,
                    nearly_normal: flag,
                    ..pnt_facts(t, df, Kind::Positive)
                };
                assert_eq!(pnt_case(facts), PntCase::NotANumber);
            }
        }
    }
    // An infinite point comes before the approximation.
    let facts = PntFacts { nearly_normal: true, ..pnt_facts(Kind::PosInfinity, Kind::Positive, Kind::Positive) };
    assert_eq!(pnt_case(facts), PntCase::Sure(Level::One));
    let facts = PntFacts { nearly_normal: true, ..pnt_facts(Kind::NegInfinity, Kind::Positive, Kind::Negative) };
    assert_eq!(pnt_case(facts), PntCase::Sure(Level::Zero));
    // The empty left tail comes before the approximation.
    let facts = PntFacts {
        ncp_large: true,
        nearly_normal: true,
        ..pnt_facts(Kind::Negative, Kind::Positive, Kind::Positive)
    };
    assert_eq!(pnt_case(facts), PntCase::Sure(Level::Zero));
    // The approximation comes before the series.
    let facts = PntFacts { nearly_normal: true, ..pnt_facts(Kind::Positive, Kind::Positive, Kind::Positive) };
    assert_eq!(pnt_case(facts), PntCase::Normal { mirrored: false });
    let facts = pnt_facts(Kind::Positive, Kind::Positive, Kind::Positive);
    assert_eq!(pnt_case(facts), PntCase::Series { mirrored: false });
}

#[test]
fn the_noncentral_function_mirrors_a_negative_point() {
    for ncp in [Kind::Negative, Kind::Positive] {
        for (t, mirrored) in [(Kind::Negative, true), (Kind::Zero, false), (Kind::Positive, false)] {
            let facts = pnt_facts(t, Kind::Positive, ncp);
            assert_eq!(pnt_case(facts), PntCase::Series { mirrored });
            let facts = PntFacts { nearly_normal: true, ..facts };
            assert_eq!(pnt_case(facts), PntCase::Normal { mirrored });
        }
    }
}

#[test]
fn the_left_tail_is_empty_under_a_large_noncentrality() {
    let facts = PntFacts { ncp_large: true, ..pnt_facts(Kind::Negative, Kind::Positive, Kind::Positive) };
    assert_eq!(pnt_case(facts), PntCase::Sure(Level::Zero));
    assert_eq!(pnt_case(PntFacts { lower_tail: false, ..facts }), PntCase::Sure(Level::One));
    assert_eq!(
        pnt_case(PntFacts { lower_tail: false, log_p: true, ..facts }),
        PntCase::Sure(Level::Zero)
    );
    // The logarithm of the lower tail is summed all the same.
    assert_eq!(pnt_case(PntFacts { log_p: true, ..facts }), PntCase::Series { mirrored: true });
    // Right of zero nothing is cut short.
    let facts = PntFacts { t: Kind::Positive, ..facts };
    assert_eq!(pnt_case(facts), PntCase::Series { mirrored: false });
    let facts = PntFacts { t: Kind::Zero, ..facts };
    assert_eq!(pnt_case(facts), PntCase::Series { mirrored: false });
}

#[test]
fn without_noncentrality_the_function_is_the_central_one() {
    for t in [Kind::NegInfinity, Kind::Negative, Kind::Zero, Kind::Positive, Kind::PosInfinity] {
        for df in [Kind::Positive, Kind::PosInfinity] {
            for ncp_large in BOTH {
                for nearly_normal in BOTH {
                    for lower_tail in BOTH {
                        for log_p in BOTH {
                            let facts = PntFacts {
                                t,
                                df,
                                ncp: Kind::Zero,
                                ncp_large,
                                nearly_normal,
                                lower_tail,
                                log_p,
                            };
                            assert_eq!(pnt_case(facts), PntCase::Central);
                        }
                    }
                }
            }
        }
    }
}

#[test]
fn the_noncentral_function_at_infinity() {
    for df in [Kind::Positive, Kind::PosInfinity] {
        for ncp in [Kind::Negative, Kind::Positive] {
            for ncp_large in BOTH {
                for nearly_normal in BOTH {
                    let facts =
                        PntFacts { ncp_large, nearly_normal, ..pnt_facts(Kind::NegInfinity, df, ncp) };
                    assert_eq!(pnt_case(facts), PntCase::Sure(Level::Zero));
                    let facts = PntFacts { t: Kind::PosInfinity, ..facts };
                    assert_eq!(pnt_case(facts), PntCase::Sure(Level::One));
                }
            }
        }
    }
}

fn quantile_facts(p: Place, df: Kind, ncp: Kind) -> QuantileFacts {
    QuantileFacts {
        p,
        df,
        second_df: None,
        df_at_least_one: true,
        ncp,
        on_line: true,
        nearly_one: false,
        lower_tail: true,
    }
}

#[test]
fn the_quantile_function_resolves_its_cases_in_order() {
    for df in KINDS {
        for ncp in KINDS {
            assert_eq!(quantile_case(quantile_facts(Place::NotANumber, df, ncp)), QuantileCase::NotANumber);
        }
    }
    for p in PLACES {
        for other in KINDS {
            assert_eq!(quantile_case(quantile_facts(p, Kind::NotANumber, other)), QuantileCase::NotANumber);
            assert_eq!(quantile_case(quantile_facts(p, other, Kind::NotANumber)), QuantileCase::NotANumber);
        }
        for df in [Kind::NegInfinity, Kind::Negative, Kind::Zero] {
            assert_eq!(quantile_case(quantile_facts(p, df, Kind::Zero)), QuantileCase::NotANumber);
            assert_eq!(quantile_case(quantile_facts(p, df, Kind::Positive)), QuantileCase::NotANumber);
        }
    }
    // No noncentrality comes before the ends of the unit interval.
    for p in [Place::Below, Place::Zero, Place::Inside, Place::One, Place::Above] {
        assert_eq!(quantile_case(quantile_facts(p, Kind::Positive, Kind::Zero)), QuantileCase::Central);
    }
    // Under one degree of freedom the central function is searched too.
    let facts = QuantileFacts { df_at_least_one: false, ..quantile_facts(Place::Inside, Kind::Positive, Kind::Zero) };
    assert_eq!(quantile_case(facts), QuantileCase::Search);
    let facts = QuantileFacts { p: Place::Zero, ..facts };
    assert_eq!(quantile_case(facts), QuantileCase::At(End::Left));
}

#[test]
fn the_quantiles_of_the_noncentral_function() {
    let facts = quantile_facts(Place::Inside, Kind::Positive, Kind::Positive);
    assert_eq!(quantile_case(facts), QuantileCase::Search);
    assert_eq!(quantile_case(QuantileFacts { lower_tail: false, ..facts }), QuantileCase::Search);
    assert_eq!(quantile_case(QuantileFacts { nearly_one: true, ..facts }), QuantileCase::At(End::Right));
    assert_eq!(quantile_case(QuantileFacts { p: Place::Zero, ..facts }), QuantileCase::At(End::Left));
    assert_eq!(quantile_case(QuantileFacts { p: Place::One, ..facts }), QuantileCase::At(End::Right));
    assert_eq!(
        quantile_case(QuantileFacts { p: Place::Zero, lower_tail: false, ..facts }),
        QuantileCase::At(End::Right)
    );
    assert_eq!(
        quantile_case(QuantileFacts { p: Place::One, lower_tail: false, ..facts }),
        QuantileCase::At(End::Left)
    );
}

#[test]
fn the_quantile_of_what_lies_beyond_the_unit_interval_is_an_end() {
    let facts = quantile_facts(Place::Inside, Kind::Positive, Kind::Positive);
    for nearly_one in BOTH {
        for df_at_least_one in BOTH {
            let facts = QuantileFacts { nearly_one, df_at_least_one, ..facts };
            assert_eq!(
                quantile_case(QuantileFacts { p: Place::Below, ..facts }),
                QuantileCase::At(End::Left)
            );
            assert_eq!(
                quantile_case(QuantileFacts { p: Place::Above, ..facts }),
                QuantileCase::At(End::Right)
            );
            assert_eq!(
                quantile_case(QuantileFacts { p: Place::Below, lower_tail: false, ..facts }),
                QuantileCase::At(End::Right)
            );
            assert_eq!(
                quantile_case(QuantileFacts { p: Place::Above, lower_tail: false, ..facts }),
                QuantileCase::At(End::Left)
            );
        }
    }
    // What is beyond an end gives what the end gives.
    for lower_tail in BOTH {
        for on_line in BOTH {
            let facts = QuantileFacts { lower_tail, on_line, ..facts };
            assert_eq!(
                quantile_case(QuantileFacts { p: Place::Above, ..facts }),
                quantile_case(QuantileFacts { p: Place::One, ..facts })
            );
            assert_eq!(
                quantile_case(QuantileFacts { p: Place::Below, ..facts }),
                quantile_case(QuantileFacts { p: Place::Zero, ..facts })
            );
        }
    }
    // What is not a number stays none.
    assert_eq!(
        quantile_case(QuantileFacts { p: Place::NotANumber, ..facts }),
        QuantileCase::NotANumber
    );
}

#[test]
fn a_search_is_only_started_where_it_can_end() {
    for p in PLACES {
        for df in KINDS {
            for ncp in KINDS {
                for df_at_least_one in BOTH {
                    for nearly_one in BOTH {
                        for lower_tail in BOTH {
                            for second_df in [None, Some(Kind::Positive), Some(Kind::Zero)] {
                                for on_line in BOTH {
                                    let facts = QuantileFacts {
                                        p,
                                        df,
                                        second_df,
                                        df_at_least_one,
                                        ncp,
                                        on_line,
                                        nearly_one,
                                        lower_tail,
                                    };
                                    if quantile_case(facts) == QuantileCase::Search {
                                        assert_eq!(p, Place::Inside);
                                        assert!(df.is_above_zero());
                                        assert_ne!(second_df, Some(Kind::Zero));
                                        assert_ne!(ncp, Kind::NotANumber);
                                        assert!(on_line || ncp == Kind::Zero || ncp == Kind::Positive);
                                        assert!(!nearly_one);
                                    }
                                }
                            }
                        }
                    }
                }
            }
        }
    }
}

fn half_line_facts(x: Kind, ncp: Kind) -> HalfLineFacts {
    HalfLineFacts {
        x,
        at_right_end: false,
        df: Kind::Positive,
        second_df: None,
        ncp,
        lower_tail: true,
        log_p: false,
    }
}

#[test]
fn degrees_of_freedom_are_positive_numbers() {
    assert!(check_freedoms(Kind::Positive, None));
    assert!(check_freedoms(Kind::PosInfinity, None));
    assert!(check_freedoms(Kind::Positive, Some(Kind::Positive)));
    for df in [Kind::NotANumber, Kind::NegInfinity, Kind::Negative, Kind::Zero] {
        assert!(!check_freedoms(df, None));
        assert!(!check_freedoms(df, Some(Kind::Positive)));
        assert!(!check_freedoms(Kind::Positive, Some(df)));
    }
}

#[test]
fn a_function_on_the_half_line_resolves_its_cases_in_order() {
    for other in KINDS {
        assert_eq!(half_line_case(half_line_facts(Kind::NotANumber, other)), HalfLineCase::NotANumber);
        assert_eq!(half_line_case(half_line_facts(other, Kind::NotANumber)), HalfLineCase::NotANumber);
    }
    for x in KINDS {
        for df in [Kind::NotANumber, Kind::NegInfinity, Kind::Negative, Kind::Zero] {
            let facts = HalfLineFacts { df, ..half_line_facts(x, Kind::Positive) };
            assert_eq!(half_line_case(facts), HalfLineCase::NotANumber);
            let facts = HalfLineFacts { second_df: Some(df), ..half_line_facts(x, Kind::Positive) };
            assert_eq!(half_line_case(facts), HalfLineCase::NotANumber);
        }
        for ncp in [Kind::NegInfinity, Kind::Negative, Kind::PosInfinity] {
            assert_eq!(half_line_case(half_line_facts(x, ncp)), HalfLineCase::NotANumber);
        }
    }
    // The ends of the support come before the central function.
    for ncp in [Kind::Zero, Kind::Positive] {
        for x in [Kind::NegInfinity, Kind::Negative, Kind::Zero] {
            assert_eq!(half_line_case(half_line_facts(x, ncp)), HalfLineCase::Sure(Level::Zero));
        }
        assert_eq!(
            half_line_case(half_line_facts(Kind::PosInfinity, ncp)),
            HalfLineCase::Sure(Level::One)
        );
        let facts = HalfLineFacts { at_right_end: true, ..half_line_facts(Kind::Positive, ncp) };
        assert_eq!(half_line_case(facts), HalfLineCase::Sure(Level::One));
    }
    assert_eq!(half_line_case(half_line_facts(Kind::Positive, Kind::Zero)), HalfLineCase::Central);
    assert_eq!(half_line_case(half_line_facts(Kind::Positive, Kind::Positive)), HalfLineCase::Series);
}

#[test]
fn a_function_on_the_half_line_at_the_ends_of_its_support() {
    for (lower_tail, log_p, left, right) in [
        (true, false, Level::Zero, Level::One),
        (false, false, Level::One, Level::Zero),
        (true, true, Level::NegInfinity, Level::Zero),
        (false, true, Level::Zero, Level::NegInfinity),
    ] {
        let facts = HalfLineFacts { lower_tail, log_p, ..half_line_facts(Kind::Zero, Kind::Positive) };
        assert_eq!(half_line_case(facts), HalfLineCase::Sure(left));
        let facts = HalfLineFacts { x: Kind::PosInfinity, ..facts };
        assert_eq!(half_line_case(facts), HalfLineCase::Sure(right));
    }
}

#[test]
fn a_quantile_on_the_half_line_takes_no_negative_noncentrality() {
    let facts = QuantileFacts { on_line: false, ..quantile_facts(Place::Inside, Kind::Positive, Kind::Positive) };
    assert_eq!(quantile_case(facts), QuantileCase::Search);
    for ncp in [Kind::NegInfinity, Kind::Negative, Kind::PosInfinity] {
        for p in PLACES {
            let facts = QuantileFacts { p, ncp, ..facts };
            assert_eq!(quantile_case(facts), QuantileCase::NotANumber);
            let facts = QuantileFacts { on_line: true, ..facts };
            if p == Place::Inside {
                assert_eq!(quantile_case(facts), QuantileCase::Search);
            }
        }
    }
    let facts = QuantileFacts { second_df: Some(Kind::Zero), ..facts };
    assert_eq!(quantile_case(facts), QuantileCase::NotANumber);
    let facts = QuantileFacts { second_df: Some(Kind::Positive), ncp: Kind::Zero, ..facts };
    assert_eq!(quantile_case(facts), QuantileCase::Central);
}

/// What kind of number `x` is.
fn kind(x: f64) -> Kind {
    if x.is_nan() {
        Kind::NotANumber
    } else if x == f64::NEG_INFINITY {
        Kind::NegInfinity
    } else if x == f64::INFINITY {
        Kind::PosInfinity
    } else if x < 0.0 {
        Kind::Negative
    } else if x > 0.0 {
        Kind::Positive
    } else {
        Kind::Zero
    }
}

/// Where `p` stands in the unit interval.
fn place(p: f64) -> Place {
    if p.is_nan() {
        Place::NotANumber
    } else if p < 0.0 {
        Place::Below
    } else if p > 1.0 {
        Place::Above
    } else if p == 0.0 {
        Place::Zero
    } else if p == 1.0 {
        Place::One
    } else {
        Place::Inside
    }
}

/// The float that stands for an end of the probability scale.
fn value(level: Level) -> f64 {
    match level {
        Level::NegInfinity => f64::NEG_INFINITY,
        Level::Zero => 0.0,
        Level::One => 1.0,
    }
}

/// The case of the lower tail of the noncentral t distribution function at
/// `t`, on the plain scale.
fn pnt_at(t: f64, df: f64, ncp: f64) -> PntCase {
    pnt_case(PntFacts {
        t: kind(t),
        df: kind(df),
        ncp: kind(ncp),
        ncp_large: ncp > 40.0,
        nearly_normal: df > 4e5 || ncp * ncp > 2.0 * std::f64::consts::LN_2 * 1021.0,
        lower_tail: true,
        log_p: false,
    })
}

/// The case of the lower-tail noncentral t quantile function at `p`.
fn qnt_at(p: f64, df: f64, ncp: f64) -> QuantileCase {
    quantile_case(QuantileFacts {
        p: place(p),
        df: kind(df),
        second_df: None,
        df_at_least_one: df >= 1.0,
        ncp: kind(ncp),
        on_line: true,
        nearly_one: p >= 1.0 - f64::EPSILON,
        lower_tail: true,
    })
}

#[test]
fn the_cases_of_the_noncentral_function_at_known_points() {
    assert_eq!(pnt_at(2.0095, 49.0, 0.0), PntCase::Central);
    assert_eq!(pnt_at(2.0095, 5e5, 2.0), PntCase::Normal { mirrored: false });
    assert_eq!(pnt_at(2.0095, 49.0, 3.5355), PntCase::Series { mirrored: false });
    assert_eq!(pnt_at(-4.46, 11.0, 2.23), PntCase::Series { mirrored: true });
    assert_eq!(pnt_at(0.3, 0.5, 0.4), PntCase::Series { mirrored: false });
    assert_eq!(pnt_at(-1.0, 10.0, 41.0), PntCase::Sure(Level::Zero));
    assert_eq!(pnt_at(-1.0, 10.0, 40.0), PntCase::Normal { mirrored: true });
    assert_eq!(pnt_at(1.0, 10.0, 38.0), PntCase::Normal { mirrored: false });
    assert_eq!(pnt_at(1.0, 10.0, 37.0), PntCase::Series { mirrored: false });
    assert_eq!(pnt_at(1.0, 0.0, 2.0), PntCase::NotANumber);
    assert_eq!(pnt_at(1.0, -3.0, 0.0), PntCase::Central);
    assert_eq!(pnt_at(f64::INFINITY, -3.0, 2.0), PntCase::Sure(Level::One));
    assert_eq!(pnt_at(f64::NAN, 10.0, 2.0), PntCase::NotANumber);
}

#[test]
fn the_noncentral_function_is_one_at_infinity_and_zero_at_minus_infinity() {
    match pnt_at(f64::INFINITY, 49.0, 2.0) {
        PntCase::Sure(level) => assert_eq!(value(level), 1.0),
        other => panic!("{other:?}"),
    }
    match pnt_at(-f64::INFINITY, 49.0, 2.0) {
        PntCase::Sure(level) => assert_eq!(value(level), 0.0),
        other => panic!("{other:?}"),
    }
}

#[test]
fn the_cases_of_the_quantile_function_at_known_points() {
    assert_eq!(qnt_at(f64::NAN, 1.0, 2.0), QuantileCase::NotANumber);
    assert_eq!(qnt_at(1.0, -1.0, 2.0), QuantileCase::NotANumber);
    assert_eq!(qnt_at(0.13, 10.0, 0.0), QuantileCase::Central);
    assert_eq!(qnt_at(0.54, f64::INFINITY, 12.0), QuantileCase::Search);
    assert_eq!(qnt_at(0.54, 11.0, 2.23), QuantileCase::Search);
    assert_eq!(qnt_at(0.3, 0.5, 0.4), QuantileCase::Search);
    assert_eq!(qnt_at(0.3, 0.5, 0.0), QuantileCase::Search);
    assert_eq!(qnt_at(0.0, 11.0, 2.23), QuantileCase::At(End::Left));
    assert_eq!(qnt_at(1.0, 11.0, 2.23), QuantileCase::At(End::Right));
    assert_eq!(qnt_at(1.0 - f64::EPSILON, 11.0, 2.23), QuantileCase::At(End::Right));
    assert_eq!(qnt_at(1.0 - 2.0 * f64::EPSILON, 11.0, 2.23), QuantileCase::Search);
    assert_eq!(qnt_at(f64::MIN_POSITIVE, 11.0, 2.23), QuantileCase::Search);
    assert_eq!(qnt_at(1.5, 11.0, 2.23), QuantileCase::At(End::Right));
    assert_eq!(qnt_at(f64::INFINITY, 11.0, 2.23), QuantileCase::At(End::Right));
    assert_eq!(qnt_at(-0.5, 11.0, 2.23), QuantileCase::At(End::Left));
    assert_eq!(qnt_at(f64::NEG_INFINITY, 11.0, 2.23), QuantileCase::At(End::Left));
    assert_eq!(qnt_at(1.5, 0.5, 0.0), QuantileCase::At(End::Right));
    assert_eq!(qnt_at(1.5, -1.0, 2.0), QuantileCase::NotANumber);
    assert_eq!(qnt_at(1.5, 11.0, f64::NAN), QuantileCase::NotANumber);
}

#[test]
fn the_central_quantile_at_zero_is_minus_infinity() {
    assert_eq!(r_q_p01_boundaries(place(0.0), true), Boundary::At(End::Left));
    assert_eq!(r_q_p01_boundaries(place(1.0), true), Boundary::At(End::Right));
    assert_eq!(r_q_p01_boundaries(place(0.13), true), Boundary::Inside);
}

#[test]
fn the_end_at_or_beyond_an_end_of_the_unit_interval() {
    assert_eq!(end_at(Place::Below, true), Some(End::Left));
    assert_eq!(end_at(Place::Zero, true), Some(End::Left));
    assert_eq!(end_at(Place::One, true), Some(End::Right));
    assert_eq!(end_at(Place::Above, true), Some(End::Right));
    assert_eq!(end_at(Place::Below, false), Some(End::Right));
    assert_eq!(end_at(Place::Zero, false), Some(End::Right));
    assert_eq!(end_at(Place::One, false), Some(End::Left));
    assert_eq!(end_at(Place::Above, false), Some(End::Left));
    for lower_tail in BOTH {
        assert_eq!(end_at(Place::Inside, lower_tail), None);
        assert_eq!(end_at(Place::NotANumber, lower_tail), None);
    }
}
