use slope_a_dope::calculator::{EvalError, Line, MeasurementType, Point};
use slope_a_dope::rat::Rat;

#[test]
fn create_points() {
    let mut p1 = Point::new();
    let mut p2 = Point::new();
    let mut line = Line::new();
    line.calc(&p1, &p2);
    // This should fail because points have no values
    assert_eq!(None, line.slope);
    assert_eq!(None, line.intercept);

    //set values for p1 and p2
    p1.set_point(Rat::from_int(0), Rat::from_int(0));
    p2.set_point(Rat::from_int(10), Rat::from_int(10));
    line.calc(&p1, &p2);

    assert!(line.slope.unwrap().eq_val(&Rat::from_int(1)));
    assert!(line.intercept.unwrap().eq_val(&Rat::from_int(0)));
}

#[test]
fn test_line_from() {
    let mut p1 = Point::new();
    let mut p2 = Point::new();
    p1.set_point(Rat::from_int(0), Rat::from_int(0));
    p2.set_point(Rat::from_int(10), Rat::from_int(10));

    let line = Line::from((&p1, &p2));
    assert!(line.slope.unwrap().eq_val(&Rat::from_int(1)));
    assert!(line.intercept.unwrap().eq_val(&Rat::from_int(0)));
    let line2 = Line::from((&p2, &p1));
    assert!(line2.slope.unwrap().eq_val(&Rat::from_int(1)));
    assert!(line2.intercept.unwrap().eq_val(&Rat::from_int(0)));
}

#[test]
fn create_point_from_trait() {
    let p1 = Point::from((Rat::from_int(0), Rat::from_int(0)));
    let p2 = Point::from((Rat::from_int(10), Rat::from_int(10)));
    let line = Line::from((&p1, &p2));
    assert!(line.slope.unwrap().eq_val(&Rat::from_int(1)));
    assert!(line.intercept.unwrap().eq_val(&Rat::from_int(0)));
    assert!(line
        .get_corresponding_value(&MeasurementType::Physical(Rat::from_int(5)))
        .unwrap()
        .eq_val(&Rat::from_int(5)));
}

#[test]
fn point_validity() {
    let mut p = Point::new();
    assert!(!p.is_valid());
    p.set_voltage(Rat::from_int(3));
    assert!(!p.is_valid());
    p.set_physical(Rat::from_int(4));
    assert!(p.is_valid());
    let (v, ph) = p.get_val();
    assert!(v.eq_val(&Rat::from_int(3)));
    assert!(ph.eq_val(&Rat::from_int(4)));
}

#[test]
fn line_order_independent() {
    let p1 = Point::from((Rat::from_int(1), Rat::from_int(3)));
    let p2 = Point::from((Rat::from_int(4), Rat::from_int(9)));
    let a = Line::from((&p1, &p2));
    let b = Line::from((&p2, &p1));
    let (ma, ba) = a.get_val().unwrap();
    let (mb, bb) = b.get_val().unwrap();
    assert!(ma.eq_val(&mb));
    assert!(ba.eq_val(&bb));
    assert!(ma.eq_val(&Rat::from_int(2)));
    assert!(ba.eq_val(&Rat::from_int(1)));
}

#[test]
fn equal_x_is_undefined() {
    let p1 = Point::from((Rat::from_int(5), Rat::from_int(1)));
    let p2 = Point::from((Rat::from_int(5), Rat::from_int(9)));
    let line = Line::from((&p1, &p2));
    assert!(line.get_val().is_none());
    // Equal as values, not merely as representations.
    let p3 = Point::from((Rat::new(10, 2), Rat::from_int(7)));
    let line2 = Line::from((&p1, &p3));
    assert!(line2.get_val().is_none());
}

#[test]
fn eval_round_trip() {
    // Through (0, 1) and (2, 5): slope 2, intercept 1.
    let p1 = Point::from((Rat::from_int(0), Rat::from_int(1)));
    let p2 = Point::from((Rat::from_int(2), Rat::from_int(5)));
    let line = Line::from((&p1, &p2));
    let y = line
        .get_corresponding_value(&MeasurementType::Voltage(Rat::from_int(3)))
        .unwrap();
    assert!(y.eq_val(&Rat::from_int(7)));
    let x = line
        .get_corresponding_value(&MeasurementType::Physical(y))
        .unwrap();
    assert!(x.eq_val(&Rat::from_int(3)));
}

#[test]
fn eval_undefined_fails() {
    let line = Line::new();
    assert_eq!(
        Err(EvalError::Undefined),
        line.get_corresponding_value(&MeasurementType::Voltage(Rat::from_int(1)))
    );
    assert_eq!(
        Err(EvalError::Undefined),
        line.get_corresponding_value(&MeasurementType::Physical(Rat::from_int(1)))
    );
}

#[test]
fn eval_zero_slope_not_invertible() {
    // A horizontal line: every voltage maps to 4, no physical value inverts.
    let p1 = Point::from((Rat::from_int(0), Rat::from_int(4)));
    let p2 = Point::from((Rat::from_int(10), Rat::from_int(4)));
    let line = Line::from((&p1, &p2));
    let y = line
        .get_corresponding_value(&MeasurementType::Voltage(Rat::from_int(3)))
        .unwrap();
    assert!(y.eq_val(&Rat::from_int(4)));
    assert_eq!(
        Err(EvalError::NotInvertible),
        line.get_corresponding_value(&MeasurementType::Physical(Rat::from_int(5)))
    );
}

#[test]
fn eval_out_of_range() {
    // Slope -(i64::MAX): evaluating at 2 leaves the machine range.
    let p1 = Point::from((Rat::from_int(0), Rat::from_int(i64::MAX)));
    let p2 = Point::from((Rat::from_int(1), Rat::from_int(0)));
    let line = Line::from((&p1, &p2));
    assert!(line.get_val().is_some());
    assert_eq!(
        Err(EvalError::OutOfRange),
        line.get_corresponding_value(&MeasurementType::Voltage(Rat::from_int(2)))
    );
}

#[test]
fn fractional_slope_exact() {
    // Through (1, 1) and (4, 3): slope 2/3, intercept 1/3.
    let p1 = Point::from((Rat::from_int(1), Rat::from_int(1)));
    let p2 = Point::from((Rat::from_int(4), Rat::from_int(3)));
    let line = Line::from((&p1, &p2));
    let (m, b) = line.get_val().unwrap();
    assert!(m.eq_val(&Rat::new(2, 3)));
    assert!(b.eq_val(&Rat::new(1, 3)));
}
