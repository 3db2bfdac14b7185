use testdex::amount::Amount;

fn amt(n: u64) -> Amount {
    Amount::from_u64(n)
}

#[test]
fn from_u64_round_trips() {
    for n in [0u64, 1, 999, 4294967295, 4294967296, 112500000000, u64::MAX] {
        assert_eq!(amt(n).to_u64(), Some(n));
    }
}

#[test]
fn zero_is_zero() {
    assert!(Amount::zero().is_zero());
    assert!(amt(0).is_zero());
    assert!(!amt(1).is_zero());
    assert_eq!(Amount::zero().to_u64(), Some(0));
}

#[test]
fn digits_are_little_endian_base_two_to_the_32() {
    assert_eq!(Amount::from_digits(vec![830850304, 26]), amt(112500000000));
    assert_eq!(Amount::from_digits(vec![0, 1]), amt(4294967296));
    assert_eq!(Amount::from_digits(vec![4294967295]), amt(4294967295));
    assert_eq!(Amount::from_digits(vec![830850304, 26]).to_u64(), Some(112500000000));
    assert_eq!(Amount::from_digits(vec![7, 0, 0]).to_u64(), Some(7));
    assert!(Amount::from_digits(vec![0, 0]).is_zero());
}

#[test]
fn plus_adds() {
    assert_eq!(amt(2).plus(&amt(3)).to_u64(), Some(5));
    assert_eq!(amt(4294967295).plus(&amt(1)).to_u64(), Some(4294967296));
    assert_eq!(amt(u64::MAX).plus(&amt(1)), Amount::from_digits(vec![0, 0, 1]));
}

#[test]
fn to_u64_is_none_beyond_64_bits() {
    assert_eq!(amt(u64::MAX).plus(&amt(1)).to_u64(), None);
    assert_eq!(amt(u64::MAX).to_u64(), Some(u64::MAX));
}

#[test]
fn minus_subtracts() {
    assert_eq!(amt(9900).minus(&amt(9851)).to_u64(), Some(49));
    assert_eq!(amt(5).minus(&amt(5)).to_u64(), Some(0));
    let big = amt(u64::MAX).plus(&amt(10));
    assert_eq!(big.minus(&amt(11)).to_u64(), Some(u64::MAX - 1));
}

#[test]
fn checked_minus_refuses_to_go_below_zero() {
    assert!(amt(3).checked_minus(&amt(4)).is_none());
    assert_eq!(amt(4).checked_minus(&amt(3)).unwrap().to_u64(), Some(1));
    assert_eq!(amt(4).checked_minus(&amt(4)).unwrap().to_u64(), Some(0));
}

#[test]
fn times_multiplies_beyond_64_bits() {
    assert_eq!(amt(6).times(&amt(7)).to_u64(), Some(42));
    assert_eq!(amt(0).times(&amt(7)).to_u64(), Some(0));
    let square = amt(u64::MAX).times(&amt(u64::MAX));
    assert_eq!(square, Amount::from_digits(vec![1, 0, 4294967294, 4294967295]));
    assert_ne!(square, Amount::from_digits(vec![1, 0, 4294967294]));
}

#[test]
fn div_floor_rounds_down() {
    assert_eq!(amt(99_500_000_000).div_floor(&amt(10_099_500)).to_u64(), Some(9851));
    assert_eq!(amt(7).div_floor(&amt(7)).to_u64(), Some(1));
    assert_eq!(amt(6).div_floor(&amt(7)).to_u64(), Some(0));
    let square = amt(u64::MAX).times(&amt(u64::MAX));
    assert_eq!(square.div_floor(&amt(u64::MAX)).to_u64(), Some(u64::MAX));
}

#[test]
fn at_most_and_same_compare_values() {
    assert!(amt(3).at_most(&amt(4)));
    assert!(amt(4).at_most(&amt(4)));
    assert!(!amt(5).at_most(&amt(4)));
    assert!(amt(4).same(&amt(4)));
    assert!(!amt(4).same(&amt(5)));
    assert!(Amount::from_digits(vec![4, 0]).same(&amt(4)));
    let big = amt(u64::MAX).plus(&amt(1));
    assert!(amt(u64::MAX).at_most(&big));
    assert!(!big.at_most(&amt(u64::MAX)));
}

#[test]
fn duplicate_is_equal() {
    let a = amt(123456789012345);
    let b = a.duplicate();
    assert!(a.same(&b));
    assert_eq!(b.to_u64(), Some(123456789012345));
}

#[test]
fn to_digits_denotes_the_same_number() {
    let square = amt(u64::MAX).times(&amt(u64::MAX));
    assert_eq!(Amount::from_digits(square.to_digits()), square);
    assert_eq!(Amount::from_digits(Amount::zero().to_digits()), amt(0));
}

#[test]
fn equality_is_by_value() {
    assert_eq!(Amount::from_digits(vec![9, 0, 0]), amt(9));
    assert_eq!(Amount::from_digits(vec![]), amt(0));
    assert_ne!(Amount::from_digits(vec![9, 1]), amt(9));
}

#[test]
fn bytes_are_big_endian() {
    assert_eq!(Amount::from_bytes_be(b"A"), amt(65));
    assert_eq!(Amount::from_bytes_be(b"AA"), amt(16705));
    assert_eq!(Amount::from_bytes_be(b"AB"), amt(16706));
    assert_eq!(Amount::from_bytes_be(&[4, 101]), amt(1125));
    assert_eq!(Amount::from_bytes_be(&[0, 0, 4, 101]), amt(1125));
    assert_eq!(Amount::from_bytes_be(&[]), amt(0));
    assert_eq!(
        Amount::from_bytes_be(&[1, 0, 0, 0, 0, 0, 0, 0, 0]),
        amt(u64::MAX).plus(&amt(1))
    );
    assert_eq!(Amount::from_digits(vec![0x01020304]).to_bytes_be(), vec![1, 2, 3, 4]);
    assert_eq!(
        Amount::from_digits(vec![0x05060708, 0x01020304]).to_bytes_be(),
        vec![1, 2, 3, 4, 5, 6, 7, 8]
    );
}

#[test]
fn bytes_round_trip() {
    let square = amt(u64::MAX).times(&amt(u64::MAX));
    for value in [amt(0), amt(1), amt(1125), amt(u64::MAX), square] {
        assert_eq!(Amount::from_bytes_be(&value.to_bytes_be()), value);
    }
}
