use yata::{Action, Cross, Method, PivotHighSignal, PivotLowSignal};

#[test]
fn cross_scenario() {
    let a = [1i64, 3, 1];
    let b = [2i64, 2, 2];
    let mut cross = Cross::new((), (a[0], b[0])).unwrap();
    assert_eq!(cross.next((a[0], b[0])), Action::Neutral);
    assert_eq!(cross.next((a[1], b[1])), Action::Buy(1));
    assert_eq!(cross.next((a[2], b[2])), Action::Sell(1));
}

#[test]
fn cross_ties_do_not_cross() {
    let mut cross = Cross::new((), (1, 2)).unwrap();
    assert_eq!(cross.next((2, 2)), Action::Neutral);
    assert_eq!(cross.next((3, 2)), Action::Buy(1));
    assert_eq!(cross.next((2, 2)), Action::Neutral);
    assert_eq!(cross.next((1, 2)), Action::Sell(1));
    assert_eq!(cross.next((0, 2)), Action::Neutral);
}

#[test]
fn cross_extreme_values_do_not_overflow() {
    let mut cross = Cross::new((), (i64::MIN, i64::MAX)).unwrap();
    assert_eq!(cross.next((i64::MAX, i64::MIN)), Action::Buy(1));
}

#[test]
fn pivot_high_is_reported_right_steps_later() {
    let xs = [1i64, 2, 3, 9, 4, 3, 2, 1];
    let mut p = PivotHighSignal::new((2, 2), 0).unwrap();
    let out: Vec<Action> = xs.iter().map(|&x| p.next(x)).collect();
    for (n, a) in out.iter().enumerate() {
        if n == 5 {
            assert_eq!(*a, Action::Buy(1));
        } else {
            assert_eq!(*a, Action::Neutral, "step {}", n);
        }
    }
}

#[test]
fn pivot_low_is_reported_right_steps_later() {
    let xs = [9i64, 8, 7, 1, 6, 7, 8, 9];
    let mut p = PivotLowSignal::new((1, 3), 10).unwrap();
    let out: Vec<Action> = xs.iter().map(|&x| p.next(x)).collect();
    for (n, a) in out.iter().enumerate() {
        if n == 6 {
            assert_eq!(*a, Action::Buy(1));
        } else {
            assert_eq!(*a, Action::Neutral, "step {}", n);
        }
    }
}

#[test]
fn pivot_needs_strict_extremum() {
    let mut p = PivotHighSignal::new((1, 1), 0).unwrap();
    assert_eq!(p.next(5), Action::Neutral);
    assert_eq!(p.next(5), Action::Neutral);
    assert_eq!(p.next(1), Action::Neutral);
}

#[test]
fn pivot_zero_sizes_are_refused() {
    assert!(PivotHighSignal::new((0, 2), 1).is_err());
    assert!(PivotHighSignal::new((2, 0), 1).is_err());
    assert!(PivotLowSignal::new((0, 0), 1).is_err());
}

#[test]
fn action_from_analog() {
    assert_eq!(Action::from_analog(0), Action::Neutral);
    assert_eq!(Action::from_analog(3), Action::Buy(3));
    assert_eq!(Action::from_analog(-1), Action::Sell(1));
    assert_eq!(Action::from_analog(-128), Action::Sell(128));
    assert_eq!(Action::Buy(7).analog(), 1);
    assert_eq!(Action::Sell(7).analog(), -1);
    assert_eq!(Action::Neutral.analog(), 0);
    assert!(Action::Neutral.is_none());
}
