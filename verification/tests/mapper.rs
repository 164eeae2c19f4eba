use xy_display::mapper::map_duty;

#[test]
fn lower_bound_maps_to_zero() {
    assert_eq!(map_duty(-4, -4, 4, 1024), 0);
}

#[test]
fn upper_bound_maps_to_full_resolution() {
    assert_eq!(map_duty(4, -4, 4, 1024), 1024);
}

#[test]
fn center_maps_to_half_resolution() {
    assert_eq!(map_duty(0, -4, 4, 1024), 512);
}

#[test]
fn coordinates_below_range_clamp_to_lower_bound() {
    let mut k: i64 = 1;
    while k < 50 {
        assert_eq!(map_duty(-4 - k, -4, 4, 1024), map_duty(-4, -4, 4, 1024));
        k += 1;
    }
    assert_eq!(map_duty(i64::MIN, -4, 4, 1024), 0);
}

#[test]
fn coordinates_above_range_clamp_to_upper_bound() {
    let mut k: i64 = 1;
    while k < 50 {
        assert_eq!(map_duty(4 + k, -4, 4, 1024), map_duty(4, -4, 4, 1024));
        k += 1;
    }
    assert_eq!(map_duty(i64::MAX, -4, 4, 1024), 1024);
}

#[test]
fn mapping_is_monotone_in_the_coordinate() {
    let mut prev: u16 = map_duty(-10_000, -4096, 4096, 1024);
    let mut v: i64 = -9_999;
    while v <= 10_000 {
        let d: u16 = map_duty(v, -4096, 4096, 1024);
        assert!(prev <= d);
        prev = d;
        v += 7;
    }
}

#[test]
fn quantization_error_stays_under_one_quantum() {
    // The mapped value, scaled back onto the coordinate range with the
    // denominators cleared, undershoots the clamped coordinate by less than
    // one quantum.
    let lo: i64 = -3;
    let hi: i64 = 3;
    let resolution: u16 = 1024;
    let mut v: i64 = -5;
    while v <= 5 {
        let q: i64 = map_duty(v, lo, hi, resolution) as i64;
        let c: i64 = v.clamp(lo, hi) - lo;
        let err: i64 = c * resolution as i64 - q * (hi - lo);
        assert!(0 <= err && err < hi - lo);
        v += 1;
    }
}

#[test]
fn fixed_point_scale_does_not_change_the_mapping() {
    // The same logical coordinate, represented at a raw scale of one and at
    // a raw scale of 65536 units per logical unit, maps identically.
    assert_eq!(map_duty(-1, -4, 4, 1024), 384);
    assert_eq!(map_duty(-65536, -4 * 65536, 4 * 65536, 1024), 384);
    assert_eq!(map_duty(65536, -3 * 65536, 3 * 65536, 1024), 682);
}

#[test]
fn resolution_one_splits_the_range_in_two() {
    assert_eq!(map_duty(-4, -4, 4, 1), 0);
    assert_eq!(map_duty(0, -4, 4, 1), 0);
    assert_eq!(map_duty(1, -4, 4, 1), 0);
    assert_eq!(map_duty(4, -4, 4, 1), 1);
}
