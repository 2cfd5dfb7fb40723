use slope_a_dope::app::{App, CurrentlyEditing, Key, Mode, ScreenID};
use slope_a_dope::rat::Rat;

fn type_str(app: &mut App, text: &str) {
    for c in text.chars() {
        app.update_state(Key::Char(c)).unwrap();
    }
}

#[test]
fn select_cancel_quits_from_each_screen() {
    // From screen selection, Cancel quits, whatever screen is current.
    let mut app = App::new();
    assert!(matches!(app.get_mode(), Mode::Select));
    app.update_state(Key::Cancel).unwrap();
    assert!(matches!(app.get_mode(), Mode::Quit));
    // Quit is terminal: the next step fails and changes nothing.
    assert!(app.update_state(Key::Confirm).is_err());
    assert!(matches!(app.get_mode(), Mode::Quit));

    let mut app2 = App::new();
    app2.update_state(Key::Down).unwrap();
    assert!(matches!(app2.get_current_screen(), ScreenID::P2));
    app2.update_state(Key::Cancel).unwrap();
    assert!(matches!(app2.get_mode(), Mode::Quit));

    let mut app3 = App::new();
    app3.update_state(Key::Right).unwrap();
    assert!(matches!(app3.get_current_screen(), ScreenID::Tester));
    app3.update_state(Key::Cancel).unwrap();
    assert!(matches!(app3.get_mode(), Mode::Quit));
}

#[test]
fn screen_navigation_edges() {
    let mut app = App::new();
    // Up from Point 1 is a no-op.
    app.update_state(Key::Up).unwrap();
    assert!(matches!(app.get_current_screen(), ScreenID::P1));
    // Left from a point screen is a no-op.
    app.update_state(Key::Left).unwrap();
    assert!(matches!(app.get_current_screen(), ScreenID::P1));
    app.update_state(Key::Down).unwrap();
    assert!(matches!(app.get_current_screen(), ScreenID::P2));
    // Down from Point 2 is a no-op.
    app.update_state(Key::Down).unwrap();
    assert!(matches!(app.get_current_screen(), ScreenID::P2));
    app.update_state(Key::Right).unwrap();
    assert!(matches!(app.get_current_screen(), ScreenID::Tester));
    // Right from the tester is a no-op.
    app.update_state(Key::Right).unwrap();
    assert!(matches!(app.get_current_screen(), ScreenID::Tester));
    app.update_state(Key::Left).unwrap();
    assert!(matches!(app.get_current_screen(), ScreenID::P1));
    // Unrecognised keys are ignored.
    app.update_state(Key::Other).unwrap();
    assert!(matches!(app.get_current_screen(), ScreenID::P1));
    assert!(matches!(app.get_mode(), Mode::Select));
}

#[test]
fn field_selection_toggles() {
    let mut app = App::new();
    app.update_state(Key::Confirm).unwrap();
    assert!(matches!(app.get_mode(), Mode::FieldSelect));
    assert!(matches!(
        app.get_currently_editing(),
        Some(CurrentlyEditing::Voltage)
    ));
    // Point screens use Up/Down.
    app.update_state(Key::Down).unwrap();
    assert!(matches!(
        app.get_currently_editing(),
        Some(CurrentlyEditing::Physical)
    ));
    app.update_state(Key::Up).unwrap();
    assert!(matches!(
        app.get_currently_editing(),
        Some(CurrentlyEditing::Voltage)
    ));
    // Left/Right do nothing on a point screen.
    app.update_state(Key::Right).unwrap();
    assert!(matches!(
        app.get_currently_editing(),
        Some(CurrentlyEditing::Voltage)
    ));
    // Cancel clears the field and returns to screen selection.
    app.update_state(Key::Cancel).unwrap();
    assert!(matches!(app.get_mode(), Mode::Select));
    assert!(app.get_currently_editing().is_none());
}

#[test]
fn tester_field_uses_left_right() {
    let mut app = App::new();
    app.update_state(Key::Right).unwrap();
    app.update_state(Key::Confirm).unwrap();
    app.update_state(Key::Right).unwrap();
    assert!(matches!(
        app.get_currently_editing(),
        Some(CurrentlyEditing::Physical)
    ));
    app.update_state(Key::Left).unwrap();
    assert!(matches!(
        app.get_currently_editing(),
        Some(CurrentlyEditing::Voltage)
    ));
    // Up/Down do nothing on the tester screen.
    app.update_state(Key::Down).unwrap();
    assert!(matches!(
        app.get_currently_editing(),
        Some(CurrentlyEditing::Voltage)
    ));
}

#[test]
fn text_entry_cancel_restores() {
    let mut app = App::new();
    app.update_state(Key::Confirm).unwrap();
    app.update_state(Key::Confirm).unwrap();
    assert!(matches!(app.get_mode(), Mode::TextEntry));
    assert_eq!(0, app.get_temp_point().unwrap().len());
    type_str(&mut app, "123");
    assert_eq!(3, app.get_temp_point().unwrap().len());
    app.update_state(Key::Cancel).unwrap();
    // Back in field selection, draft gone, no field mutated.
    assert!(matches!(app.get_mode(), Mode::FieldSelect));
    assert!(app.get_temp_point().is_none());
    let (pt1, pt2) = app.get_points();
    assert!(pt1.0.eq_val(&Rat::from_int(5)));
    assert!(pt1.1.eq_val(&Rat::from_int(100)));
    assert!(pt2.0.eq_val(&Rat::from_int(0)));
    assert!(pt2.1.eq_val(&Rat::from_int(0)));
}

#[test]
fn confirm_invalid_draft_is_silent_noop() {
    let mut app = App::new();
    app.update_state(Key::Confirm).unwrap();
    app.update_state(Key::Confirm).unwrap();
    type_str(&mut app, "12a");
    app.update_state(Key::Confirm).unwrap();
    // Mode falls back, the draft is gone, and nothing else changed.
    assert!(matches!(app.get_mode(), Mode::FieldSelect));
    assert!(app.get_temp_point().is_none());
    let (pt1, pt2) = app.get_points();
    assert!(pt1.0.eq_val(&Rat::from_int(5)));
    assert!(pt1.1.eq_val(&Rat::from_int(100)));
    assert!(pt2.0.eq_val(&Rat::from_int(0)));
    assert!(pt2.1.eq_val(&Rat::from_int(0)));
    let (m, b) = app.get_line_val().unwrap();
    assert!(m.eq_val(&Rat::from_int(20)));
    assert!(b.eq_val(&Rat::from_int(0)));
    assert!(app.get_test_series().is_none());
}

#[test]
fn erase_edits_draft() {
    let mut app = App::new();
    app.update_state(Key::Confirm).unwrap();
    app.update_state(Key::Confirm).unwrap();
    type_str(&mut app, "19");
    app.update_state(Key::Erase).unwrap();
    assert_eq!(1, app.get_temp_point().unwrap().len());
    // Erasing an empty draft is a no-op.
    app.update_state(Key::Erase).unwrap();
    app.update_state(Key::Erase).unwrap();
    assert_eq!(0, app.get_temp_point().unwrap().len());
    type_str(&mut app, "7");
    app.update_state(Key::Confirm).unwrap();
    // The surviving "7" overwrote Point 1's voltage.
    let (pt1, _) = app.get_points();
    assert!(pt1.0.eq_val(&Rat::from_int(7)));
}

#[test]
fn editing_point_recomputes_line() {
    let mut app = App::new();
    // Point 2's voltage becomes 10: the line through (5, 100) and (10, 0).
    app.update_state(Key::Down).unwrap();
    app.update_state(Key::Confirm).unwrap();
    app.update_state(Key::Confirm).unwrap();
    type_str(&mut app, "10");
    app.update_state(Key::Confirm).unwrap();
    let (m, b) = app.get_line_val().unwrap();
    assert!(m.eq_val(&Rat::from_int(-20)));
    assert!(b.eq_val(&Rat::from_int(200)));
}

#[test]
fn equal_voltages_give_undefined_line() {
    let mut app = App::new();
    // Point 2's voltage becomes 5, equal to Point 1's: no line.
    app.update_state(Key::Down).unwrap();
    app.update_state(Key::Confirm).unwrap();
    app.update_state(Key::Confirm).unwrap();
    type_str(&mut app, "5");
    app.update_state(Key::Confirm).unwrap();
    assert!(app.get_line_val().is_none());
    assert_eq!(0, app.get_plot_data().len());
}

#[test]
fn three_records_end_to_end() {
    // Default points (5, 100) and (0, 0): slope 20, intercept 0; asking for
    // the physical value at voltage 2.5 yields 50.
    let mut app = App::new();
    let (m, b) = app.get_line_val().unwrap();
    assert!(m.eq_val(&Rat::from_int(20)));
    assert!(b.eq_val(&Rat::from_int(0)));
    app.update_state(Key::Right).unwrap();
    assert!(matches!(app.get_current_screen(), ScreenID::Tester));
    app.update_state(Key::Confirm).unwrap();
    app.update_state(Key::Confirm).unwrap();
    assert!(matches!(app.get_mode(), Mode::TextEntry));
    type_str(&mut app, "2.5");
    app.update_state(Key::Confirm).unwrap();
    let (qx, qy) = app.get_test_series().unwrap();
    assert!(qx.eq_val(&Rat::new(5, 2)));
    assert!(qy.eq_val(&Rat::from_int(50)));
}

#[test]
fn tester_query_inverts_too() {
    // Asking for the voltage that gives physical value 50 yields 2.5.
    let mut app = App::new();
    app.update_state(Key::Right).unwrap();
    app.update_state(Key::Confirm).unwrap();
    app.update_state(Key::Right).unwrap();
    app.update_state(Key::Confirm).unwrap();
    type_str(&mut app, "50");
    app.update_state(Key::Confirm).unwrap();
    let (qx, qy) = app.get_test_series().unwrap();
    assert!(qx.eq_val(&Rat::new(5, 2)));
    assert!(qy.eq_val(&Rat::from_int(50)));
}

#[test]
fn tester_query_on_undefined_line_leaves_no_result() {
    let mut app = App::new();
    // Make the line undefined first.
    app.update_state(Key::Down).unwrap();
    app.update_state(Key::Confirm).unwrap();
    app.update_state(Key::Confirm).unwrap();
    type_str(&mut app, "5");
    app.update_state(Key::Confirm).unwrap();
    assert!(app.get_line_val().is_none());
    // Then submit a tester query: it is kept, but yields no result.
    app.update_state(Key::Cancel).unwrap();
    app.update_state(Key::Right).unwrap();
    app.update_state(Key::Confirm).unwrap();
    app.update_state(Key::Confirm).unwrap();
    type_str(&mut app, "3");
    app.update_state(Key::Confirm).unwrap();
    assert!(app.get_test_series().is_none());
}

#[test]
fn plot_data_is_ordered_by_voltage() {
    let app = App::new();
    let plot = app.get_plot_data();
    assert_eq!(2, plot.len());
    assert!(plot[0].0.eq_val(&Rat::from_int(0)));
    assert!(plot[0].1.eq_val(&Rat::from_int(0)));
    assert!(plot[1].0.eq_val(&Rat::from_int(5)));
    assert!(plot[1].1.eq_val(&Rat::from_int(100)));
}
