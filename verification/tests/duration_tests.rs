use periodic_executor::Dur;

#[test]
fn constructors_agree() {
    assert_eq!(Dur::from_millis(5500), Dur::new(5, 500_000_000));
    assert_eq!(Dur::from_millis(3000), Dur::from_secs(3));
    assert_eq!(Dur::zero(), Dur::from_secs(0));
}

#[test]
fn zero_detection() {
    assert!(Dur::zero().is_zero());
    assert!(!Dur::new(0, 1).is_zero());
    assert!(!Dur::from_secs(1).is_zero());
}

#[test]
fn ordering_across_second_boundary() {
    let under = Dur::new(1, 999_999_999);
    let over = Dur::new(2, 0);
    assert!(under.lt(&over));
    assert!(under.le(&over));
    assert!(!over.lt(&under));
    assert!(over.le(&over));
    assert!(!over.lt(&over));
}

#[test]
fn addition_carries_subseconds() {
    let a = Dur::new(1, 600_000_000);
    let b = Dur::new(2, 700_000_000);
    assert_eq!(a.plus(b), Dur::new(4, 300_000_000));
}

#[test]
fn subtraction_borrows_subseconds() {
    let a = Dur::new(2, 100_000_000);
    let b = Dur::new(0, 200_000_000);
    assert_eq!(a.minus(b), Dur::new(1, 900_000_000));
}

#[test]
fn sum_then_difference_round_trips() {
    let a = Dur::new(3, 900_000_000);
    let b = Dur::new(0, 450_000_000);
    assert_eq!(a.plus(b).minus(b), a);
}
