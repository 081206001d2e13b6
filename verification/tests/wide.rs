use murale::wide::Wide;

#[test]
fn products_carry_into_the_upper_half() {
    assert_eq!(Wide::product(6, 7), Wide::new(42));
    assert_eq!(Wide::product(1 << 127, 2), Wide { high: 1, low: 0 });
    // (2^128 - 1) * (2^64 - 1) = 2^192 - 2^128 - 2^64 + 1
    assert_eq!(
        Wide::product(u128::MAX, u64::MAX),
        Wide { high: (1 << 64) - 2, low: u128::MAX - (1 << 64) + 2 }
    );
}

#[test]
fn sums_and_differences_undo_each_other() {
    let small = Wide::new(u128::MAX);
    let large = Wide { high: 5, low: 3 };
    let sum = large.plus(small);
    assert_eq!(sum, Wide { high: 6, low: 2 });
    assert_eq!(sum.minus(small), large);
    assert_eq!(sum.minus(large), small);
}
