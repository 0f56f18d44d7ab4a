use poweranalyses::add_ten;
use poweranalyses::decimal::checked_pow10;

#[test]
fn lib_it_adds_ten() {
    assert_eq!(12, add_ten(2));
}

#[test]
fn main_it_adds_ten() {
    assert_eq!(12, add_ten(2));
}

#[test]
fn adds_ten_at_the_edges() {
    assert_eq!(add_ten(0), 10);
    assert_eq!(add_ten(-10), 0);
    assert_eq!(add_ten(i32::MIN), i32::MIN + 10);
    assert_eq!(add_ten(i32::MAX - 10), i32::MAX);
}

#[test]
fn powers_of_ten() {
    assert_eq!(checked_pow10(0), Some(1));
    assert_eq!(checked_pow10(1), Some(10));
    assert_eq!(checked_pow10(3), Some(1000));
    assert_eq!(checked_pow10(18), Some(1_000_000_000_000_000_000));
}

#[test]
fn powers_of_ten_that_do_not_fit() {
    assert_eq!(checked_pow10(19), None);
    assert_eq!(checked_pow10(u32::MAX), None);
}

#[test]
fn powers_of_ten_agree_with_std() {
    let mut exponent: u32 = 0;
    while exponent < 25 {
        assert_eq!(checked_pow10(exponent), 10i64.checked_pow(exponent));
        exponent += 1;
    }
}

/// Rounds `x` to `decimals` places, by the power of ten that the library
/// gives, and leaves it alone where there is none.
fn round(x: f64, decimals: u32) -> f64 {
    match checked_pow10(decimals) {
        Some(number) => (x * number as f64).round() / number as f64,
        None => x,
    }
}

#[test]
fn interface_rounding() {
    assert_eq!(round(1.234, 2), 1.23);
}

#[test]
fn power_rounding() {
    assert_eq!(round(1.234, 2), 1.23);
}

#[test]
fn rounding_to_three_places() {
    assert_eq!(round(0.0336, 3), 0.034);
    assert_eq!(round(0.9674, 3), 0.967);
    assert_eq!(round(44.3, 0), 44.0);
    assert_eq!(round(1.2345, 19), 1.2345);
}
