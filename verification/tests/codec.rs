use graliffer::{Direction, GralifferError, Position, PositionAxis};

#[test]
fn axis_numeric_to_textual_examples() {
    assert_eq!(PositionAxis::numeric_to_textual(5).unwrap(), 'F');
    assert_eq!(PositionAxis::numeric_to_textual(52).unwrap(), '0');
    assert_eq!(PositionAxis::numeric_to_textual(26).unwrap(), 'a');
    assert_eq!(PositionAxis::numeric_to_textual(0).unwrap(), 'A');
    assert_eq!(PositionAxis::numeric_to_textual(25).unwrap(), 'Z');
    assert_eq!(PositionAxis::numeric_to_textual(51).unwrap(), 'z');
    assert_eq!(PositionAxis::numeric_to_textual(61).unwrap(), '9');
    assert_eq!(PositionAxis::numeric_to_textual(62).unwrap(), '+');
    assert_eq!(PositionAxis::numeric_to_textual(63).unwrap(), '/');
    assert_eq!(
        PositionAxis::numeric_to_textual(64).unwrap_err(),
        GralifferError::AxisOutOfBounds
    );
}

#[test]
fn axis_textual_to_numeric_examples() {
    assert_eq!(PositionAxis::textual_to_numeric('Y').unwrap(), 24);
    assert_eq!(PositionAxis::textual_to_numeric('5').unwrap(), 57);
    assert_eq!(PositionAxis::textual_to_numeric('+').unwrap(), 62);
    assert_eq!(PositionAxis::textual_to_numeric('/').unwrap(), 63);
    assert_eq!(PositionAxis::textual_to_numeric('a').unwrap(), 26);
    assert_ne!(PositionAxis::textual_to_numeric('R').unwrap(), 34);
    assert_eq!(
        PositionAxis::textual_to_numeric('-').unwrap_err(),
        GralifferError::InvalidAxisChar
    );
}

#[test]
fn axis_round_trip_all_values() {
    for n in 0..=63u32 {
        let c = PositionAxis::numeric_to_textual(n).unwrap();
        assert_eq!(PositionAxis::textual_to_numeric(c).unwrap(), n);
    }
}

#[test]
fn axis_round_trip_all_characters() {
    let alphabet = "ABCDEFGHIJKLMNOPQRSTUVWXYZabcdefghijklmnopqrstuvwxyz0123456789+/";
    for c in alphabet.chars() {
        let n = PositionAxis::textual_to_numeric(c).unwrap();
        assert_eq!(PositionAxis::numeric_to_textual(n).unwrap(), c);
    }
}

#[test]
fn axis_validity_and_clamp() {
    assert!(PositionAxis::is_valid_numeric(0));
    assert!(PositionAxis::is_valid_numeric(63));
    assert!(PositionAxis::is_valid_numeric(42));
    assert!(!PositionAxis::is_valid_numeric(64));
    assert!(PositionAxis::is_valid_textual('A'));
    assert!(PositionAxis::is_valid_textual('/'));
    assert!(PositionAxis::is_valid_textual('q'));
    assert!(!PositionAxis::is_valid_textual('-'));
    assert_eq!(PositionAxis::clamp_numeric(0), 0);
    assert_eq!(PositionAxis::clamp_numeric(25), 25);
    assert_eq!(PositionAxis::clamp_numeric(63), 63);
    assert_eq!(PositionAxis::clamp_numeric(64), 63);
}

#[test]
fn axis_checked_arithmetic() {
    let zero = PositionAxis::from_numeric(0).unwrap();
    let five = PositionAxis::from_numeric(5).unwrap();
    let ten = PositionAxis::from_numeric(10).unwrap();
    let fifteen = PositionAxis::from_numeric(15).unwrap();
    let top = PositionAxis::from_numeric(63).unwrap();

    assert_eq!(ten.checked_add(five).unwrap(), fifteen);
    assert_eq!(fifteen.checked_add(zero).unwrap(), fifteen);
    assert_eq!(ten.checked_add(top).unwrap_err(), GralifferError::OutOfGrid);

    assert_eq!(ten.checked_sub(five).unwrap(), five);
    assert_eq!(ten.checked_sub(zero).unwrap(), ten);
    assert_eq!(ten.checked_sub(fifteen).unwrap_err(), GralifferError::OutOfGrid);

    assert_eq!(five.checked_increment(10).unwrap(), fifteen);
    assert_eq!(ten.checked_increment(0).unwrap(), ten);
    assert!(top.checked_increment(1).is_err());

    assert_eq!(ten.checked_decrement(5).unwrap(), five);
    assert_eq!(top.checked_decrement(63).unwrap(), zero);
    assert!(zero.checked_decrement(1).is_err());
}

#[test]
fn position_construction() {
    let pos = Position::from_numeric(0, 0).unwrap();
    assert_eq!(pos.as_textual(), ('A', 'A'));

    let pos = Position::from_textual('a', '/').unwrap();
    assert_eq!(pos.as_numeric(), (26, 63));

    let pos = Position::from_textual('a', '5').unwrap();
    assert_eq!(pos.as_numeric(), (26, 57));

    assert!(Position::from_numeric(63, 0).is_ok());
    assert!(Position::from_numeric(64, 0).is_err());
    assert!(Position::from_textual('+', 'A').is_ok());
    assert!(Position::from_textual('-', 'A').is_err());

    let x = PositionAxis::from_numeric(5).unwrap();
    let y = PositionAxis::from_numeric(10).unwrap();
    let pos = Position::from_position_axis(x, y);
    assert_eq!(pos.as_numeric(), (5, 10));
    assert_eq!(pos.x(), 5);
    assert_eq!(pos.y(), 10);
}

#[test]
fn position_textual_string() {
    let pos = Position::from_numeric(1, 2).unwrap();
    assert_eq!(pos.as_textual_string(), "BC");
    let pos = Position::from_numeric(62, 63).unwrap();
    assert_eq!(pos.as_textual_string(), "+/");
}

#[test]
fn position_checked_arithmetic() {
    let zero = Position::from_numeric(0, 0).unwrap();
    let five_ten = Position::from_numeric(5, 10).unwrap();
    let ten_twenty = Position::from_numeric(10, 20).unwrap();
    let top = Position::from_numeric(63, 63).unwrap();

    assert_eq!(five_ten.checked_add(five_ten).unwrap(), ten_twenty);
    assert_eq!(zero.checked_add(five_ten).unwrap(), five_ten);
    assert!(ten_twenty.checked_add(top).is_err());

    assert_eq!(five_ten.checked_sub(five_ten).unwrap(), zero);
    assert_eq!(ten_twenty.checked_sub(zero).unwrap(), ten_twenty);
    assert_eq!(ten_twenty.checked_sub(five_ten).unwrap(), five_ten);
    assert!(five_ten.checked_sub(ten_twenty).is_err());

    assert_eq!(
        five_ten.checked_increment_x(1).unwrap(),
        Position::from_numeric(6, 10).unwrap()
    );
    assert_eq!(
        five_ten.checked_increment_y(2).unwrap(),
        Position::from_numeric(5, 12).unwrap()
    );
    assert_eq!(
        five_ten.checked_decrement_x(5).unwrap(),
        Position::from_numeric(0, 10).unwrap()
    );
    assert_eq!(
        five_ten.checked_decrement_y(10).unwrap(),
        Position::from_numeric(5, 0).unwrap()
    );
    assert!(five_ten.checked_decrement_x(6).is_err());
}

#[test]
fn position_checked_step() {
    let pos = Position::from_numeric(5, 5).unwrap();
    assert_eq!(
        pos.checked_step(Direction::Up, 1).unwrap(),
        Position::from_numeric(5, 4).unwrap()
    );
    assert_eq!(
        pos.checked_step(Direction::Right, 2).unwrap(),
        Position::from_numeric(7, 5).unwrap()
    );
    assert_eq!(
        pos.checked_step(Direction::Down, 3).unwrap(),
        Position::from_numeric(5, 8).unwrap()
    );
    assert_eq!(
        pos.checked_step(Direction::Left, 5).unwrap(),
        Position::from_numeric(0, 5).unwrap()
    );
    assert_eq!(
        pos.checked_step(Direction::Left, 6).unwrap_err(),
        GralifferError::OutOfGrid
    );
    let origin = Position::from_numeric(0, 0).unwrap();
    assert!(origin.checked_step(Direction::Up, 1).is_err());
    let corner = Position::from_numeric(63, 63).unwrap();
    assert!(corner.checked_step(Direction::Down, 1).is_err());
    assert!(corner.checked_step(Direction::Right, 1).is_err());
}
