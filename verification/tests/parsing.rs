use wallpaper_export::frac::{parse_decimal, parse_fraction, frac_eq, frac_le, frac_lt, Frac};
use wallpaper_export::policy::{choose_height, compute_plan, resolve_window, target_fps};

fn fr(neg: bool, num: u64, den: u64) -> Frac {
    Frac { neg, num, den }
}

#[test]
fn fraction_rational_exact() {
    let f = parse_fraction("30000/1001").unwrap();
    assert!(!f.neg);
    assert_eq!(f.num, 30000);
    assert_eq!(f.den, 1001);
}

#[test]
fn fraction_plain_integer() {
    let f = parse_fraction("24").unwrap();
    assert!(!f.neg);
    assert_eq!(f.num, 24);
    assert_eq!(f.den, 1);
}

#[test]
fn fraction_plain_decimal() {
    let f = parse_fraction("29.97").unwrap();
    assert_eq!(f.num, 2997);
    assert_eq!(f.den, 100);
}

#[test]
fn fraction_decimal_over_decimal() {
    // (1.5) / (0.5) = 15/10 over 5/10 -> num 15*10, den 10*5
    let f = parse_fraction("1.5/0.5").unwrap();
    assert!(!f.neg);
    assert_eq!(f.num, 150);
    assert_eq!(f.den, 50);
}

#[test]
fn fraction_zero_denominator_unparseable() {
    assert!(parse_fraction("1/0").is_none());
    assert!(parse_fraction("0/0").is_none());
    assert!(parse_fraction("1/0.0").is_none());
    assert!(parse_fraction("1/-0").is_none());
}

#[test]
fn fraction_malformed_unparseable() {
    assert!(parse_fraction("").is_none());
    assert!(parse_fraction("abc").is_none());
    assert!(parse_fraction("a/b").is_none());
    assert!(parse_fraction("1/2/3").is_none());
    assert!(parse_fraction("1//2").is_none());
    assert!(parse_fraction("/5").is_none());
    assert!(parse_fraction("5/").is_none());
    assert!(parse_fraction(".").is_none());
    assert!(parse_fraction("1.2.3").is_none());
}

#[test]
fn fraction_signs() {
    let f = parse_fraction("-1.5").unwrap();
    assert!(f.neg);
    assert_eq!(f.num, 15);
    assert_eq!(f.den, 10);
    let g = parse_fraction("+3/2").unwrap();
    assert!(!g.neg);
    assert_eq!(g.num, 3);
    assert_eq!(g.den, 2);
    let h = parse_fraction("3/-2").unwrap();
    assert!(h.neg);
    assert_eq!(h.num, 3);
    assert_eq!(h.den, 2);
}

#[test]
fn fraction_edge_decimals() {
    let f = parse_fraction("5.").unwrap();
    assert_eq!((f.num, f.den), (5, 1));
    let g = parse_fraction(".5").unwrap();
    assert_eq!((g.num, g.den), (5, 10));
}

#[test]
fn fraction_overflow_unparseable() {
    // twenty nines exceed the 64-bit mantissa
    assert!(parse_decimal("99999999999999999999").is_none());
    // more than nineteen fractional digits exceed the denominator range
    assert!(parse_decimal("0.123456789012345678901").is_none());
}

#[test]
fn decimal_parse_duration_style() {
    let d = parse_decimal("10.000000").unwrap();
    assert_eq!(d.num, 10_000_000);
    assert_eq!(d.den, 1_000_000);
    assert!(parse_decimal("7/2").is_none());
}

#[test]
fn rational_comparisons() {
    let half = fr(false, 1, 2);
    let two_thirds = fr(false, 2, 3);
    let minus_half = fr(true, 1, 2);
    assert!(frac_lt(&half, &two_thirds));
    assert!(frac_le(&half, &half));
    assert!(frac_eq(&fr(false, 2, 4), &half));
    assert!(frac_lt(&minus_half, &half));
    assert!(!frac_le(&half, &minus_half));
    // zero equals minus zero
    assert!(frac_eq(&fr(true, 0, 5), &fr(false, 0, 1)));
}

#[test]
fn fps_zero_maps_to_thirty() {
    assert_eq!(target_fps(&fr(false, 0, 1)), 30);
}

#[test]
fn fps_high_rate_clamps_to_thirty() {
    // 59.94
    assert_eq!(target_fps(&fr(false, 5994, 100)), 30);
    // 29.97 rounds to 30
    assert_eq!(target_fps(&fr(false, 30000, 1001)), 30);
}

#[test]
fn fps_plain_rate_kept() {
    assert_eq!(target_fps(&fr(false, 24, 1)), 24);
    assert_eq!(target_fps(&fr(false, 25, 1)), 25);
}

#[test]
fn fps_tiny_rate_maps_to_thirty() {
    // 0.1 rounds to zero, which maps to the default; so does -0.1
    assert_eq!(target_fps(&fr(false, 1, 10)), 30);
    assert_eq!(target_fps(&fr(true, 1, 10)), 30);
}

#[test]
fn fps_negative_rate_clamps_to_one() {
    // round then clamp: a negative rate lands on the lower bound
    assert_eq!(target_fps(&fr(true, 24, 1)), 1);
}

#[test]
fn window_end_zero_goes_to_duration() {
    let (s, e) = resolve_window(&fr(false, 0, 1), &fr(false, 0, 1), &fr(false, 10, 1));
    assert_eq!((s.neg, s.num), (false, 0));
    assert_eq!((e.num, e.den), (10, 1));
}

#[test]
fn window_end_past_duration_clamps() {
    let (s, e) = resolve_window(&fr(false, 2, 1), &fr(false, 99, 1), &fr(false, 10, 1));
    assert_eq!((s.num, s.den), (2, 1));
    assert_eq!((e.num, e.den), (10, 1));
}

#[test]
fn window_negative_start_clamps_to_zero() {
    let (s, e) = resolve_window(&fr(true, 3, 1), &fr(false, 4, 1), &fr(false, 10, 1));
    assert_eq!(s.num, 0);
    assert_eq!((e.num, e.den), (4, 1));
}

#[test]
fn window_end_zero_with_positive_start_is_raised_to_start() {
    // The end is first raised to the start, so it no longer reads as
    // "to the end of source"; the effective window collapses.
    let (s, e) = resolve_window(&fr(false, 2, 1), &fr(false, 0, 1), &fr(false, 10, 1));
    assert_eq!((s.num, s.den), (2, 1));
    assert_eq!((e.num, e.den), (2, 1));
}

#[test]
fn height_priority_prefers_highest() {
    assert_eq!(choose_height(&vec![1080, 2160]), Some(2160));
    assert_eq!(choose_height(&vec![1080, 1440]), Some(1440));
    assert_eq!(choose_height(&vec![1080]), Some(1080));
}

#[test]
fn height_other_sizes_choose_nothing() {
    assert_eq!(choose_height(&vec![720]), None);
    assert_eq!(choose_height(&vec![]), None);
}

#[test]
fn plan_combines_all_decisions() {
    let p = compute_plan(
        &fr(false, 10, 1),
        &fr(false, 30, 1),
        &fr(false, 2, 1),
        &fr(false, 5, 1),
        &vec![1080],
    );
    assert_eq!((p.start.num, p.start.den), (2, 1));
    assert_eq!((p.end.num, p.end.den), (5, 1));
    assert_eq!(p.fps, 30);
    assert_eq!(p.height, Some(1080));
}
