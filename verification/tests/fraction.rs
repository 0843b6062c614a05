use phenotypes::Fraction;

#[test]
fn valid_pair_is_accepted() {
    let f = Fraction::try_from((1, 10)).expect("1 <= 10 must be accepted");
    assert_eq!(f.n(), 1);
    assert_eq!(f.m(), 10);
}

#[test]
fn zero_of_zero_is_accepted() {
    let f = Fraction::try_from((0, 0)).expect("0 <= 0 must be accepted");
    assert_eq!(f.n(), 0);
    assert_eq!(f.m(), 0);
}

#[test]
fn equal_counts_are_accepted() {
    let f = Fraction::try_from((7, 7)).expect("7 <= 7 must be accepted");
    assert_eq!(f.n(), 7);
    assert_eq!(f.m(), 7);
}

#[test]
fn numerator_above_denominator_is_rejected() {
    let err = Fraction::try_from((5, 3)).unwrap_err();
    assert_eq!(err, "Numerator must be less than or equal to denominator!");
}

#[test]
fn largest_counts_are_accepted() {
    let f = Fraction::try_from((u32::MAX, u32::MAX)).expect("equal counts must be accepted");
    assert_eq!(f.n(), u32::MAX);
    assert_eq!(f.m(), u32::MAX);
}

#[test]
fn combine_sums_both_counts() {
    let a = Fraction::try_from((1, 2)).unwrap();
    let b = Fraction::try_from((3, 3)).unwrap();
    let c = a.combine(b);
    assert_eq!(c.n(), 4);
    assert_eq!(c.m(), 5);
}

#[test]
fn combine_with_zero_is_identity_on_counts() {
    let a = Fraction::try_from((2, 9)).unwrap();
    let z = Fraction::try_from((0, 0)).unwrap();
    let c = a.combine(z);
    assert_eq!(c.n(), 2);
    assert_eq!(c.m(), 9);
}

#[test]
fn equality_is_structural() {
    let a = Fraction::try_from((2, 5)).unwrap();
    let b = Fraction::try_from((2, 5)).unwrap();
    let c = Fraction::try_from((2, 6)).unwrap();
    assert_eq!(a, a.clone());
    assert_eq!(a, b);
    assert_eq!(b, a);
    assert_ne!(a, c);
}
