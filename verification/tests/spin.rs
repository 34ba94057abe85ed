//! Conversions between spins, stored bits and signed weights.

use ising_model_2d::spin::Spin;

#[test]
fn test_spin_from_true() {
    assert_eq!(Spin::Up, Spin::from(true));
}

#[test]
fn test_spin_from_false() {
    assert_eq!(Spin::Down, Spin::from(false));
}

#[test]
fn test_spin_from_true_ref() {
    assert_eq!(Spin::Up, Spin::from(&true));
}

#[test]
fn test_spin_from_false_ref() {
    assert_eq!(Spin::Down, Spin::from(&false));
}

#[test]
fn test_f64_from_spin_up() {
    assert_eq!(1.0, f64::from(i32::from(Spin::Up)));
}

#[test]
fn test_f64_from_spin_down() {
    assert_eq!(-1.0, f64::from(i32::from(Spin::Down)));
}

#[test]
fn test_true_to_spin_up_ref() {
    // Given:
    let val = true;

    // Then:
    assert_eq!(Spin::Up, *(&val).as_ref());
}

#[test]
fn test_false_to_spin_down_ref() {
    // Given:
    let val = false;

    // Then:
    assert_eq!(Spin::Down, *(&val).as_ref());
}

#[test]
fn spin_projects_onto_its_bit() {
    assert!(Spin::Up.as_bool());
    assert!(!Spin::Down.as_bool());
    assert!(bool::from(Spin::Up));
    assert!(!bool::from(Spin::Down));
}

#[test]
fn spin_projects_onto_its_weight() {
    assert_eq!(Spin::Up.as_weight(), 1);
    assert_eq!(Spin::Down.as_weight(), -1);
    assert_eq!(i32::from(Spin::Up), 1);
    assert_eq!(i32::from(Spin::Down), -1);
}

#[test]
fn stored_bit_has_the_weight_of_its_spin() {
    assert_eq!(ising_model_2d::to_spin(true), 1);
    assert_eq!(ising_model_2d::to_spin(false), -1);
    assert_eq!(ising_model_2d::to_spin(true), Spin::from(true).as_weight());
    assert_eq!(ising_model_2d::to_spin(false), Spin::from(false).as_weight());
}

#[test]
fn bit_and_spin_round_trip() {
    assert_eq!(Spin::from(Spin::Up.as_bool()), Spin::Up);
    assert_eq!(Spin::from(Spin::Down.as_bool()), Spin::Down);
    assert_eq!(Spin::from(true).as_bool(), true);
    assert_eq!(Spin::from(false).as_bool(), false);
}
