use blackscholes::quantile::{
    QNORM_Q0, QNORM_Q1, QNORM_Q10, QNORM_Q11, QNORM_Q2, QNORM_Q3, QNORM_Q4, QNORM_Q5,
    QNORM_Q6, QNORM_Q7, QNORM_Q8, QNORM_Q9,
};
use statrs::distribution::{ContinuousCDF, Normal};

fn qnorm_from_table(p: f64) -> f64 {
    let x = p - 0.5;
    let s = x * x;
    let c = |b: u64| f64::from_bits(b);
    let q = c(QNORM_Q11)
        .mul_add(s, c(QNORM_Q10))
        .mul_add(s, c(QNORM_Q9))
        .mul_add(s, c(QNORM_Q8))
        .mul_add(s, c(QNORM_Q7))
        .mul_add(s, c(QNORM_Q6))
        .mul_add(s, c(QNORM_Q5))
        .mul_add(s, c(QNORM_Q4))
        .mul_add(s, c(QNORM_Q3))
        .mul_add(s, c(QNORM_Q2))
        .mul_add(s, c(QNORM_Q1))
        .mul_add(s, c(QNORM_Q0));
    q * x * (1.0 / (s - 0.25))
}

#[test]
fn qnorm_table_is_zero_at_median() {
    assert_eq!(qnorm_from_table(0.5), 0.0);
}

#[test]
fn qnorm_table_is_odd_about_median() {
    for k in 1..1024u32 {
        let p = k as f64 / 1024.0;
        assert_eq!(qnorm_from_table(p), -qnorm_from_table(1.0 - p));
    }
}

#[test]
fn qnorm_table_matches_normal_quantile_in_body() {
    let n = Normal::new(0.0, 1.0).unwrap();
    for i in 0..=9800u32 {
        let p = 0.01 + i as f64 * 1.0e-4;
        let err = (qnorm_from_table(p) - n.inverse_cdf(p)).abs();
        assert!(err < 2.6e-4, "p = {}, error {}", p, err);
    }
}

#[test]
fn qnorm_table_known_quantiles() {
    assert!((qnorm_from_table(0.975) - 1.959963984540054).abs() < 2.0e-4);
    assert!((qnorm_from_table(0.75) - 0.6744897501960817).abs() < 2.0e-5);
    assert!((qnorm_from_table(0.99) - 2.3263478740408408).abs() < 1.0e-8);
}

#[test]
fn qnorm_table_leading_slope_is_sqrt_two_pi() {
    let slope = -4.0 * f64::from_bits(QNORM_Q0);
    assert!((slope - (2.0 * std::f64::consts::PI).sqrt()).abs() < 3.0e-5);
}
