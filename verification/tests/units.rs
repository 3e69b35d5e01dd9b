use hud_launcher::units::{Scale, LOGICAL_LIMIT, SCALE_LIMIT, SUBPIXEL};

const C: i128 = 4_294_967_296;

fn scale(numerator: u64, denominator: u64) -> Scale {
    Scale::new(numerator, denominator).unwrap()
}

#[test]
fn limits() {
    assert_eq!(SUBPIXEL, 1i64 << 32);
    assert_eq!(SCALE_LIMIT, 1u64 << 60);
    assert_eq!(LOGICAL_LIMIT, 1i128 << 124);
}

#[test]
fn zero_is_no_term_of_a_scale_factor() {
    assert_eq!(Scale::new(0, 1), None);
    assert_eq!(Scale::new(1, 0), None);
    assert_eq!(Scale::new(0, 0), None);
}

#[test]
fn terms_above_the_limit_are_refused() {
    assert_eq!(Scale::new(SCALE_LIMIT + 1, 1), None);
    assert_eq!(Scale::new(1, SCALE_LIMIT + 1), None);
    assert_eq!(Scale::new(u64::MAX, u64::MAX), None);
    assert!(Scale::new(SCALE_LIMIT, SCALE_LIMIT).is_some());
    assert!(Scale::new(1, 1).is_some());
}

#[test]
fn scale_keeps_its_terms() {
    assert_eq!(scale(7, 4).terms(), (7, 4));
    assert_eq!(scale(1, SCALE_LIMIT).terms(), (1, SCALE_LIMIT));
    assert_eq!(scale(SCALE_LIMIT, 1).terms(), (SCALE_LIMIT, 1));
}

#[test]
fn identity_scale_is_one_over_one() {
    assert_eq!(Scale::identity().terms(), (1, 1));
    assert_eq!(Some(Scale::identity()), Scale::new(1, 1));
}

#[test]
fn fractions_are_not_reduced() {
    assert_ne!(scale(2, 1), scale(4, 2));
    assert_eq!(scale(4, 2).terms(), (4, 2));
}

#[test]
fn steps_in_a_point() {
    assert_eq!(Scale::identity().steps_per_point(), 2 * C);
    assert_eq!(scale(2, 1).steps_per_point(), 4 * C);
    assert_eq!(scale(7, 4).steps_per_point(), 14 * C);
    assert_eq!(scale(SCALE_LIMIT, 1).steps_per_point(), 1i128 << 93);
}

#[test]
fn whole_points_in_steps() {
    assert_eq!(scale(7, 4).points_to_logical(700), 700 * 14 * C);
    assert_eq!(scale(2, 1).points_to_logical(0), 0);
    assert_eq!(
        scale(SCALE_LIMIT, 1).points_to_logical(u32::MAX),
        (u32::MAX as i128) << 93
    );
}

#[test]
fn position_over_scale_in_steps() {
    // q sub-pixel steps over n / d is 2 * d * q steps of 1 / (2 * 2^32 * n)
    assert_eq!(Scale::identity().to_logical(0), 0);
    assert_eq!(Scale::identity().to_logical(5), 10);
    assert_eq!(scale(2, 1).to_logical(1000 * SUBPIXEL), 2000 * C);
    assert_eq!(scale(7, 4).to_logical(-3), -24);
    assert_eq!(scale(7, 4).to_logical(1002 * SUBPIXEL), 8 * 1002 * C);
}

#[test]
fn extent_over_scale_in_steps() {
    assert_eq!(scale(7, 4).extent_to_logical(706), 8 * 706 * C);
    assert_eq!(scale(2, 1).extent_to_logical(0), 0);
    assert_eq!(scale(2, 1).extent_to_logical(1), 2 * C);
}

#[test]
fn conversions_take_the_extremes() {
    let widest = scale(1, SCALE_LIMIT);
    assert_eq!(widest.to_logical(i64::MIN), -LOGICAL_LIMIT);
    assert_eq!(widest.to_logical(i64::MAX), LOGICAL_LIMIT - (1i128 << 61));
    assert_eq!(widest.extent_to_logical(u32::MAX), ((u32::MAX as i128) << 32) << 61);
    assert!(widest.extent_to_logical(u32::MAX) <= 2 * LOGICAL_LIMIT);
}

#[test]
fn logical_is_physical_over_scale() {
    let scales: [(u64, u64); 9] =
        [(1, 1), (5, 4), (3, 2), (7, 4), (2, 1), (3, 1), (7, 2), (4, 3), (160, 120)];
    let pixels: [i64; 8] = [0, 1, -1, 2, 499, 1000, -2560, 65_535];
    for (n, d) in scales {
        let s = scale(n, d);
        let factor = n as f64 / d as f64;
        for p in pixels {
            let steps = s.to_logical(p * SUBPIXEL);
            // exactly: steps / steps_per_point * n / d = p
            assert_eq!(steps * (n as i128), s.steps_per_point() * (d as i128) * (p as i128));
            let logical = steps as f64 / s.steps_per_point() as f64;
            assert!((logical - p as f64 / factor).abs() <= 1e-9);
            assert!((logical * factor - p as f64).abs() <= 1e-6);
        }
    }
}

#[test]
fn two_pixels_at_three_and_a_half() {
    let s = scale(7, 2);
    let logical = s.to_logical(2 * SUBPIXEL) as f64 / s.steps_per_point() as f64;
    assert!((logical - 0.571_428_571_428_571_4).abs() <= 1e-15);
    assert!((logical * 3.5 - 2.0).abs() <= 1e-12);
}

#[test]
fn positions_between_pixels_convert() {
    let s = scale(2, 1);
    // 1000.5 pixels at scale 2: 500.25 points
    let steps = s.to_logical(1000 * SUBPIXEL + SUBPIXEL / 2);
    assert_eq!(steps as f64 / s.steps_per_point() as f64, 500.25);
    // one step is 2^-32 pixel
    assert_eq!(Scale::identity().to_logical(1) as f64 / (2.0 * C as f64), 1.0 / C as f64);
}
