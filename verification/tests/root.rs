use melty_control::root::isqrt;

#[test]
fn isqrt_of_small_numbers() {
    let expected: [u64; 11] = [0, 1, 1, 1, 2, 2, 2, 2, 2, 3, 3];
    for n in 0..11u128 {
        assert_eq!(isqrt(n), expected[n as usize]);
    }
}

#[test]
fn isqrt_around_a_square() {
    assert_eq!(isqrt(15), 3);
    assert_eq!(isqrt(16), 4);
    assert_eq!(isqrt(17), 4);
    assert_eq!(isqrt(999_999_999_999), 999_999);
    assert_eq!(isqrt(1_000_000_000_000), 1_000_000);
}

#[test]
fn isqrt_of_the_largest_number() {
    assert_eq!(isqrt(u128::MAX), u64::MAX);
    let root: u128 = u64::MAX as u128;
    assert_eq!(isqrt(root * root), u64::MAX);
    assert_eq!(isqrt(root * root - 1), u64::MAX - 1);
}
