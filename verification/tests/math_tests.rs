use helio_dex::math::{mul_div, sqrt_floor};

#[test]
fn mul_div_rounds_down() {
    assert_eq!(mul_div(997, 100, 1000), Some(99));
    assert_eq!(mul_div(2000, 100, 1000), Some(200));
    assert_eq!(mul_div(7, 3, 2), Some(10));
    assert_eq!(mul_div(0, 5, 3), Some(0));
    assert_eq!(mul_div(1, 1, 2), Some(0));
}

#[test]
fn mul_div_refuses_a_zero_divisor() {
    assert_eq!(mul_div(5, 5, 0), None);
    assert_eq!(mul_div(0, 0, 0), None);
}

#[test]
fn mul_div_refuses_a_product_beyond_64_bits() {
    assert_eq!(mul_div(1 << 32, 1 << 32, 1 << 32), None);
    assert_eq!(mul_div(u64::MAX, 2, u64::MAX), None);
    assert_eq!(mul_div(u64::MAX, 1, 1), Some(u64::MAX));
    assert_eq!(mul_div(1 << 32, (1 << 32) - 1, 1 << 32), Some((1 << 32) - 1));
}

#[test]
fn sqrt_floor_of_squares_and_their_neighbours() {
    assert_eq!(sqrt_floor(0), 0);
    assert_eq!(sqrt_floor(1), 1);
    assert_eq!(sqrt_floor(2), 1);
    assert_eq!(sqrt_floor(3), 1);
    assert_eq!(sqrt_floor(4), 2);
    assert_eq!(sqrt_floor(80), 8);
    assert_eq!(sqrt_floor(81), 9);
    assert_eq!(sqrt_floor(82), 9);
    assert_eq!(sqrt_floor(1_000_000), 1000);
}

#[test]
fn sqrt_floor_at_the_top_of_the_range() {
    assert_eq!(sqrt_floor(u64::MAX), 4_294_967_295);
    assert_eq!(sqrt_floor(u64::MAX - 1), 4_294_967_295);
    assert_eq!(sqrt_floor(4_294_967_295 * 4_294_967_295), 4_294_967_295);
    assert_eq!(sqrt_floor(4_294_967_295 * 4_294_967_295 - 1), 4_294_967_294);
}

#[test]
fn sqrt_floor_is_the_greatest_root_on_a_range() {
    let mut n: u64 = 0;
    while n < 5000 {
        let r = sqrt_floor(n);
        assert!(r * r <= n);
        assert!(n < (r + 1) * (r + 1));
        n += 1;
    }
}
