//! The interactive edit/navigation controller and the plot-bounds
//! derivation.
//!
//! The controller owns two calibration points, the line derived from them, a
//! one-shot tester query, and the in-progress text draft. It consumes one
//! abstract key per step and applies exactly one transition of the state
//! machine specified by [`step`]: in `Select` the user picks a screen (or
//! quits), in `FieldSelect` a field of that screen, in `TextEntry` the user
//! types a decimal draft that, on confirm, either overwrites the chosen
//! field (recomputing the line) or, on the tester screen, is evaluated
//! against the line.

use vstd::arithmetic::div_mod::lemma_fundamental_div_mod;
use vstd::arithmetic::div_mod::lemma_fundamental_div_mod_converse;
use vstd::prelude::*;

use crate::calculator::Line;
use crate::calculator::LineV;
use crate::calculator::MeasV;
use crate::calculator::MeasurementType;
use crate::calculator::Point;
use crate::calculator::PointV;
use crate::calculator::eval_of;
use crate::calculator::line_of;
use crate::rat::Rat;
use crate::rat::RatV;
use crate::rat::ratv_lt;
use crate::rat::ratv_trunc_sat;
use crate::text::format_hundredths;
use crate::text::label_str;
use crate::text::parse_decimal;
use crate::text::parse_of;

verus! {

/// Which screen the user is on.
#[derive(Clone, Copy, Debug, PartialEq, Eq, Structural)]
pub enum ScreenID {
    P1,
    P2,
    Tester,
}

/// The controller's mode.
#[derive(Clone, Copy, Debug, PartialEq, Eq, Structural)]
pub enum Mode {
    /// Choosing a screen; `Cancel` quits.
    Select,
    /// Choosing a field of the current screen.
    FieldSelect,
    /// Typing a decimal draft for the chosen field.
    TextEntry,
    /// Terminal: the host loop stops.
    Quit,
}

/// Which field of a screen is active.
#[derive(Clone, Copy, Debug, PartialEq, Eq, Structural)]
pub enum CurrentlyEditing {
    Voltage,
    Physical,
}

/// One abstract key event, as the input source hands it to the controller.
/// Unrecognised keys arrive as `Other` and are ignored.
#[derive(Clone, Copy, Debug, PartialEq, Eq, Structural)]
pub enum Key {
    Left,
    Right,
    Up,
    Down,
    Confirm,
    Cancel,
    Char(char),
    Erase,
    Other,
}

/// Rounded axis bounds and evenly spaced tick labels for the plot.
#[derive(Debug)]
pub struct Bounds {
    pub labels: Vec<String>,
    pub bounds: (i64, i64),
}

/// Ghost image of the whole controller state.
#[verifier::ext_equal]
pub struct AppV {
    pub p1: PointV,
    pub p2: PointV,
    pub line: LineV,
    pub screen: ScreenID,
    pub mode: Mode,
    pub editing: Option<CurrentlyEditing>,
    pub draft: Option<Seq<char>>,
    pub query: Option<MeasV>,
    pub result: Option<(RatV, RatV)>,
    pub plot: Seq<(RatV, RatV)>,
}

/// The two plotted points of a defined line, lowest voltage first: each
/// pairs a voltage with the line's value at it. An undefined line, or one
/// whose values leave the machine range, plots nothing.
pub open spec fn plot_of(p1: PointV, p2: PointV, l: LineV) -> Seq<(RatV, RatV)> {
    if !l.defined() {
        Seq::empty()
    } else {
        let x1 = p1.x.unwrap();
        let x2 = p2.x.unwrap();
        let lo = if ratv_lt(x1, x2) {
            x1
        } else {
            x2
        };
        let hi = if ratv_lt(x1, x2) {
            x2
        } else {
            x1
        };
        let e_lo = eval_of(l, MeasV::Voltage(lo));
        let e_hi = eval_of(l, MeasV::Voltage(hi));
        if e_lo is Ok && e_hi is Ok {
            seq![(lo, e_lo->Ok_0), (hi, e_hi->Ok_0)]
        } else {
            Seq::empty()
        }
    }
}

/// Every plotted coordinate is well formed.
pub open spec fn plot_wf(plot: Seq<(RatV, RatV)>) -> bool {
    forall|i: int| 0 <= i < plot.len() ==> (#[trigger] plot[i]).0.wf() && plot[i].1.wf()
}

impl AppV {
    /// The controller's invariant: both points complete and well formed,
    /// line and plot derived from them, and the mode/field/draft triple
    /// consistent (a field only while one is being chosen or edited, a
    /// draft exactly while text is being entered).
    pub open spec fn wf(self) -> bool {
        &&& self.p1.wf() && self.p1.valid()
        &&& self.p2.wf() && self.p2.valid()
        &&& self.line.wf()
        &&& self.line == line_of(self.p1, self.p2)
        &&& self.plot == plot_of(self.p1, self.p2, self.line)
        &&& (self.editing is Some <==> (self.mode == Mode::FieldSelect || self.mode
            == Mode::TextEntry))
        &&& (self.draft is Some <==> self.mode == Mode::TextEntry)
        &&& (self.query matches Some(q) ==> q.wf())
        &&& (self.result matches Some(p) ==> p.0.wf() && p.1.wf())
        &&& plot_wf(self.plot)
    }
}

/// One transition in `Select` mode: directional keys move between screens
/// (Point 1 and Point 2 above each other, the tester beside them), `Confirm`
/// enters the screen with its voltage field active, `Cancel` quits.
pub open spec fn step_select(s: AppV, key: Key) -> AppV {
    match key {
        Key::Cancel => AppV { mode: Mode::Quit, ..s },
        Key::Left => if s.screen == ScreenID::Tester {
            AppV { screen: ScreenID::P1, ..s }
        } else {
            s
        },
        Key::Right => if s.screen == ScreenID::P1 || s.screen == ScreenID::P2 {
            AppV { screen: ScreenID::Tester, ..s }
        } else {
            s
        },
        Key::Up => if s.screen == ScreenID::P2 {
            AppV { screen: ScreenID::P1, ..s }
        } else {
            s
        },
        Key::Down => if s.screen == ScreenID::P1 {
            AppV { screen: ScreenID::P2, ..s }
        } else {
            s
        },
        Key::Confirm => AppV {
            mode: Mode::FieldSelect,
            editing: Some(CurrentlyEditing::Voltage),
            ..s
        },
        _ => s,
    }
}

/// One transition in `FieldSelect` mode: point screens pick their field
/// with `Up`/`Down`, the tester with `Left`/`Right`; `Confirm` starts text
/// entry with an empty draft (on the tester, discarding any previous query
/// and result); `Cancel` returns to screen selection.
pub open spec fn step_field_select(s: AppV, key: Key) -> AppV {
    match key {
        Key::Cancel => AppV { mode: Mode::Select, editing: None, ..s },
        Key::Confirm => if s.screen == ScreenID::Tester {
            AppV {
                mode: Mode::TextEntry,
                draft: Some(Seq::empty()),
                query: None,
                result: None,
                ..s
            }
        } else {
            AppV { mode: Mode::TextEntry, draft: Some(Seq::empty()), ..s }
        },
        Key::Up => if s.screen == ScreenID::P1 || s.screen == ScreenID::P2 {
            AppV { editing: Some(CurrentlyEditing::Voltage), ..s }
        } else {
            s
        },
        Key::Down => if s.screen == ScreenID::P1 || s.screen == ScreenID::P2 {
            AppV { editing: Some(CurrentlyEditing::Physical), ..s }
        } else {
            s
        },
        Key::Left => if s.screen == ScreenID::Tester {
            AppV { editing: Some(CurrentlyEditing::Voltage), ..s }
        } else {
            s
        },
        Key::Right => if s.screen == ScreenID::Tester {
            AppV { editing: Some(CurrentlyEditing::Physical), ..s }
        } else {
            s
        },
        _ => s,
    }
}

/// A point with one field overwritten.
pub open spec fn point_with(p: PointV, f: CurrentlyEditing, v: RatV) -> PointV {
    match f {
        CurrentlyEditing::Voltage => PointV { x: Some(v), ..p },
        CurrentlyEditing::Physical => PointV { y: Some(v), ..p },
    }
}

/// Confirming a draft: a draft that is no decimal number is silently
/// discarded and nothing else changes. On a point screen the active field
/// is overwritten and line and plot are recomputed, dropping any tester
/// state. On the tester screen the value becomes a query, answered against
/// the current line where that succeeds.
pub open spec fn step_confirm(s: AppV) -> AppV {
    match parse_of(s.draft.unwrap()) {
        None => AppV { mode: Mode::FieldSelect, draft: None, ..s },
        Some(v) => {
            if s.screen == ScreenID::Tester {
                let q = if s.editing == Some(CurrentlyEditing::Voltage) {
                    MeasV::Voltage(v)
                } else {
                    MeasV::Physical(v)
                };
                let res = match eval_of(s.line, q) {
                    Ok(w) => Some(
                        if s.editing == Some(CurrentlyEditing::Voltage) {
                            (v, w)
                        } else {
                            (w, v)
                        },
                    ),
                    Err(e) => None,
                };
                AppV { mode: Mode::FieldSelect, draft: None, query: Some(q), result: res, ..s }
            } else {
                let p1 = if s.screen == ScreenID::P1 {
                    point_with(s.p1, s.editing.unwrap(), v)
                } else {
                    s.p1
                };
                let p2 = if s.screen == ScreenID::P2 {
                    point_with(s.p2, s.editing.unwrap(), v)
                } else {
                    s.p2
                };
                let l = line_of(p1, p2);
                AppV {
                    mode: Mode::FieldSelect,
                    draft: None,
                    p1,
                    p2,
                    line: l,
                    plot: plot_of(p1, p2, l),
                    query: None,
                    result: None,
                    ..s
                }
            }
        },
    }
}

/// One transition in `TextEntry` mode: characters extend the draft, `Erase`
/// drops its last character, `Cancel` discards it, `Confirm` submits it.
pub open spec fn step_text_entry(s: AppV, key: Key) -> AppV {
    match key {
        Key::Char(c) => AppV { draft: Some(s.draft.unwrap().push(c)), ..s },
        Key::Erase => {
            let d = s.draft.unwrap();
            AppV {
                draft: Some(
                    if d.len() > 0 {
                        d.drop_last()
                    } else {
                        d
                    },
                ),
                ..s
            }
        },
        Key::Cancel => AppV { mode: Mode::FieldSelect, draft: None, ..s },
        Key::Confirm => step_confirm(s),
        _ => s,
    }
}

/// The whole transition table: one key, one transition. `Quit` is terminal.
pub open spec fn step(s: AppV, key: Key) -> AppV {
    match s.mode {
        Mode::Quit => s,
        Mode::Select => step_select(s, key),
        Mode::FieldSelect => step_field_select(s, key),
        Mode::TextEntry => step_text_entry(s, key),
    }
}

/// The state the controller starts in: points `(5, 100)` and `(0, 0)`, the
/// line through them, screen selection on Point 1.
pub open spec fn init_state() -> AppV {
    let p1 = PointV { x: Some(RatV { num: 5, den: 1 }), y: Some(RatV { num: 100, den: 1 }) };
    let p2 = PointV { x: Some(RatV { num: 0, den: 1 }), y: Some(RatV { num: 0, den: 1 }) };
    let l = line_of(p1, p2);
    AppV {
        p1,
        p2,
        line: l,
        screen: ScreenID::P1,
        mode: Mode::Select,
        editing: None,
        draft: None,
        query: None,
        result: None,
        plot: plot_of(p1, p2, l),
    }
}

/// The controller.
pub struct App {
    pub p1: Point,
    pub p2: Point,
    pub line: Line,
    pub current_screen: ScreenID,
    pub mode: Mode,
    pub testing_value: Option<MeasurementType>,
    pub currently_editing: Option<CurrentlyEditing>,
    pub temp_point: Option<Vec<char>>,
    pub test_point: Option<(Rat, Rat)>,
    pub plot: Vec<(Rat, Rat)>,
}

/// Ghost image of the plotted pairs.
pub open spec fn plot_view(v: Seq<(Rat, Rat)>) -> Seq<(RatV, RatV)> {
    v.map_values(|p: (Rat, Rat)| (p.0@, p.1@))
}

impl View for App {
    type V = AppV;

    open spec fn view(&self) -> AppV {
        AppV {
            p1: self.p1@,
            p2: self.p2@,
            line: self.line@,
            screen: self.current_screen,
            mode: self.mode,
            editing: self.currently_editing,
            draft: match self.temp_point {
                Some(ref d) => Some(d@),
                None => None,
            },
            query: match self.testing_value {
                Some(q) => Some(q@),
                None => None,
            },
            result: match self.test_point {
                Some(p) => Some((p.0@, p.1@)),
                None => None,
            },
            plot: plot_view(self.plot@),
        }
    }
}

impl App {
    pub open spec fn wf(self) -> bool {
        self@.wf()
    }

    /// A fresh controller in its start state.
    pub fn new() -> (app: App)
        ensures
            app@ == init_state(),
            app.wf(),
    {
        let p1 = Point::from((Rat::from_int(5), Rat::from_int(100)));
        let p2 = Point::from((Rat::from_int(0), Rat::from_int(0)));
        let mut app = App {
            p1,
            p2,
            line: Line::new(),
            current_screen: ScreenID::P1,
            mode: Mode::Select,
            testing_value: None,
            currently_editing: None,
            temp_point: None,
            test_point: None,
            plot: Vec::new(),
        };
        app.update_line();
        proof {
            assert(plot_view(Seq::empty()) =~= Seq::<(RatV, RatV)>::empty());
            assert(app@ =~= init_state());
        }
        app
    }

    /// Recompute the line from the two points, and the plot from it.
    pub fn update_line(&mut self)
        requires
            old(self).p1.wf(),
            old(self).p2.wf(),
        ensures
            final(self)@ == (AppV {
                line: line_of(old(self)@.p1, old(self)@.p2),
                plot: plot_of(
                    old(self)@.p1,
                    old(self)@.p2,
                    line_of(old(self)@.p1, old(self)@.p2),
                ),
                ..old(self)@
            }),
            final(self).p1 == old(self).p1,
            final(self).p2 == old(self).p2,
            final(self).line.wf(),
            plot_wf(final(self)@.plot),
    {
        self.line.calc(&self.p1, &self.p2);
        self.update_vector();
        proof {
            assert(self@ =~= (AppV {
                line: line_of(old(self)@.p1, old(self)@.p2),
                plot: plot_of(
                    old(self)@.p1,
                    old(self)@.p2,
                    line_of(old(self)@.p1, old(self)@.p2),
                ),
                ..old(self)@
            }));
        }
    }

    /// Rebuild the plotted pairs for the current line: the two calibration
    /// voltages in increasing order, each with the line's value there.
    pub fn update_vector(&mut self)
        requires
            old(self).p1.wf(),
            old(self).p2.wf(),
            old(self).line.wf(),
            old(self).line@ == line_of(old(self)@.p1, old(self)@.p2),
        ensures
            final(self)@ == (AppV {
                plot: plot_of(old(self)@.p1, old(self)@.p2, old(self).line@),
                ..old(self)@
            }),
            final(self).p1 == old(self).p1,
            final(self).p2 == old(self).p2,
            final(self).line == old(self).line,
            plot_wf(final(self)@.plot),
    {
        let ghost pre = self@;
        self.plot = Vec::new();
        let defined = match (self.line.slope, self.line.intercept) {
            (Some(m), Some(b)) => true,
            _ => false,
        };
        if defined {
            let x1 = self.p1.voltage.unwrap();
            let x2 = self.p2.voltage.unwrap();
            let (lo, hi) = if x1.lt_val(&x2) {
                (x1, x2)
            } else {
                (x2, x1)
            };
            let e_lo = self.line.get_corresponding_value(&MeasurementType::Voltage(lo));
            let e_hi = self.line.get_corresponding_value(&MeasurementType::Voltage(hi));
            if let (Ok(y_lo), Ok(y_hi)) = (e_lo, e_hi) {
                self.plot.push((lo, y_lo));
                self.plot.push((hi, y_hi));
            }
        }
        proof {
            assert(plot_view(Seq::empty()) =~= Seq::<(RatV, RatV)>::empty());
            if self.plot@.len() == 2 {
                assert(plot_view(self.plot@) =~= seq![
                    (self.plot@[0].0@, self.plot@[0].1@),
                    (self.plot@[1].0@, self.plot@[1].1@),
                ]);
            }
            assert(self@ =~= (AppV { plot: plot_of(pre.p1, pre.p2, pre.line), ..pre }));
        }
    }

    /// Apply exactly one transition of the state machine for `key`. Fails
    /// only when the controller is already in `Quit`, which tells the host
    /// loop to stop.
    pub fn update_state(&mut self, key: Key) -> (r: Result<(), ()>)
        requires
            old(self).wf(),
        ensures
            final(self)@ == step(old(self)@, key),
            final(self).wf(),
            r is Err <==> old(self)@.mode == Mode::Quit,
    {
        match self.mode {
            Mode::Quit => Err(()),
            Mode::Select => {
                self.update_selector_mode(key);
                Ok(())
            },
            Mode::FieldSelect => {
                self.update_editor_mode(key);
                Ok(())
            },
            Mode::TextEntry => {
                self.edit_value(key);
                Ok(())
            },
        }
    }

    /// The `Select` mode transitions: move between screens, enter one, or
    /// quit.
    fn update_selector_mode(&mut self, key: Key)
        requires
            old(self).wf(),
            old(self)@.mode == Mode::Select,
        ensures
            final(self)@ == step_select(old(self)@, key),
            final(self).wf(),
    {
        match key {
            Key::Cancel => {
                self.mode = Mode::Quit;
            },
            Key::Left => {
                if let ScreenID::Tester = self.current_screen {
                    self.current_screen = ScreenID::P1;
                }
            },
            Key::Right => {
                match self.current_screen {
                    ScreenID::P1 | ScreenID::P2 => {
                        self.current_screen = ScreenID::Tester;
                    },
                    _ => {},
                }
            },
            Key::Up => {
                if let ScreenID::P2 = self.current_screen {
                    self.current_screen = ScreenID::P1;
                }
            },
            Key::Down => {
                if let ScreenID::P1 = self.current_screen {
                    self.current_screen = ScreenID::P2;
                }
            },
            Key::Confirm => {
                self.currently_editing = Some(CurrentlyEditing::Voltage);
                self.mode = Mode::FieldSelect;
            },
            _ => {},
        }
        proof {
            assert(self@ =~= step_select(old(self)@, key));
        }
    }

    /// The `FieldSelect` mode transitions: pick a field, start text entry,
    /// or fall back to screen selection.
    fn update_editor_mode(&mut self, key: Key)
        requires
            old(self).wf(),
            old(self)@.mode == Mode::FieldSelect,
        ensures
            final(self)@ == step_field_select(old(self)@, key),
            final(self).wf(),
    {
        match key {
            Key::Cancel => {
                self.currently_editing = None;
                self.mode = Mode::Select;
            },
            Key::Confirm => {
                if let ScreenID::Tester = self.current_screen {
                    self.testing_value = None;
                    self.test_point = None;
                }
                self.temp_point = Some(Vec::new());
                self.mode = Mode::TextEntry;
            },
            Key::Up => {
                match self.current_screen {
                    ScreenID::P1 | ScreenID::P2 => {
                        self.currently_editing = Some(CurrentlyEditing::Voltage);
                    },
                    _ => {},
                }
            },
            Key::Down => {
                match self.current_screen {
                    ScreenID::P1 | ScreenID::P2 => {
                        self.currently_editing = Some(CurrentlyEditing::Physical);
                    },
                    _ => {},
                }
            },
            Key::Left => {
                if let ScreenID::Tester = self.current_screen {
                    self.currently_editing = Some(CurrentlyEditing::Voltage);
                }
            },
            Key::Right => {
                if let ScreenID::Tester = self.current_screen {
                    self.currently_editing = Some(CurrentlyEditing::Physical);
                }
            },
            _ => {},
        }
        proof {
            assert(self@ =~= step_field_select(old(self)@, key));
        }
    }

    /// The `TextEntry` mode transitions: edit the draft, discard it, or
    /// submit it.
    fn edit_value(&mut self, key: Key)
        requires
            old(self).wf(),
            old(self)@.mode == Mode::TextEntry,
        ensures
            final(self)@ == step_text_entry(old(self)@, key),
            final(self).wf(),
    {
        match key {
            Key::Char(c) => {
                match &mut self.temp_point {
                    Some(d) => {
                        d.push(c);
                    },
                    None => {
                        proof {
                            assert(false);
                        }
                    },
                }
                proof {
                    assert(self@ =~= step_text_entry(old(self)@, key));
                }
            },
            Key::Erase => {
                match &mut self.temp_point {
                    Some(d) => {
                        if d.len() > 0 {
                            d.pop();
                        }
                    },
                    None => {
                        proof {
                            assert(false);
                        }
                    },
                }
                proof {
                    assert(self@ =~= step_text_entry(old(self)@, key));
                }
            },
            Key::Cancel => {
                self.temp_point = None;
                self.mode = Mode::FieldSelect;
                proof {
                    assert(self@ =~= step_text_entry(old(self)@, key));
                }
            },
            Key::Confirm => {
                self.confirm_draft();
            },
            _ => {
                proof {
                    assert(self@ =~= step_text_entry(old(self)@, key));
                }
            },
        }
    }

    /// Submit the draft: parse it, and either overwrite the active field
    /// (point screens) or run a tester query; a draft that is no decimal
    /// number changes nothing but the mode.
    fn confirm_draft(&mut self)
        requires
            old(self).wf(),
            old(self)@.mode == Mode::TextEntry,
        ensures
            final(self)@ == step_confirm(old(self)@),
            final(self).wf(),
    {
        let parsed = match &self.temp_point {
            Some(d) => parse_decimal(d),
            None => {
                proof {
                    assert(false);
                }
                None
            },
        };
        self.temp_point = None;
        self.mode = Mode::FieldSelect;
        match parsed {
            None => {
                proof {
                    assert(self@ =~= step_confirm(old(self)@));
                    assert(self@.plot == old(self)@.plot);
                }
            },
            Some(v) => {
                match self.current_screen {
                    ScreenID::Tester => {
                        let editing_voltage = match self.currently_editing {
                            Some(CurrentlyEditing::Voltage) => true,
                            Some(CurrentlyEditing::Physical) => false,
                            None => {
                                proof {
                                    assert(false);
                                }
                                false
                            },
                        };
                        let q = if editing_voltage {
                            MeasurementType::Voltage(v)
                        } else {
                            MeasurementType::Physical(v)
                        };
                        self.testing_value = Some(q);
                        match self.line.get_corresponding_value(&q) {
                            Ok(w) => {
                                self.test_point = Some(
                                    if editing_voltage {
                                        (v, w)
                                    } else {
                                        (w, v)
                                    },
                                );
                            },
                            Err(_) => {
                                self.test_point = None;
                            },
                        }
                        proof {
                            assert(self@ =~= step_confirm(old(self)@));
                        }
                    },
                    ScreenID::P1 => {
                        match self.currently_editing {
                            Some(CurrentlyEditing::Voltage) => self.p1.set_voltage(v),
                            Some(CurrentlyEditing::Physical) => self.p1.set_physical(v),
                            None => {
                                proof {
                                    assert(false);
                                }
                            },
                        }
                        self.update_line();
                        self.test_point = None;
                        self.testing_value = None;
                        proof {
                            assert(self@ =~= step_confirm(old(self)@));
                        }
                    },
                    ScreenID::P2 => {
                        match self.currently_editing {
                            Some(CurrentlyEditing::Voltage) => self.p2.set_voltage(v),
                            Some(CurrentlyEditing::Physical) => self.p2.set_physical(v),
                            None => {
                                proof {
                                    assert(false);
                                }
                            },
                        }
                        self.update_line();
                        self.test_point = None;
                        self.testing_value = None;
                        proof {
                            assert(self@ =~= step_confirm(old(self)@));
                        }
                    },
                }
            },
        }
    }

    /// The plotted pairs, lowest voltage first (empty while the line is
    /// undefined).
    pub fn get_plot_data(&self) -> (r: &Vec<(Rat, Rat)>)
        ensures
            r@ == self.plot@,
            plot_view(r@) == self@.plot,
    {
        &self.plot
    }

    /// The last tester result, as a plottable `(voltage, physical)` pair.
    pub fn get_test_series(&self) -> (r: Option<(Rat, Rat)>)
        ensures
            r == self.test_point,
    {
        self.test_point
    }

    /// Slope and intercept of the current line, when it is defined.
    pub fn get_line_val(&self) -> (r: Option<(Rat, Rat)>)
        ensures
            r is Some <==> self@.line.defined(),
            r matches Some(v) ==> v.0@ == self@.line.slope.unwrap() && v.1@
                == self@.line.intercept.unwrap(),
    {
        self.line.get_val()
    }

    /// The screen the user is on.
    pub fn get_current_screen(&self) -> (r: ScreenID)
        ensures
            r == self.current_screen,
    {
        self.current_screen
    }

    /// The in-progress draft, while one is being typed.
    pub fn get_temp_point(&self) -> (r: Option<&Vec<char>>)
        ensures
            match (r, self@.draft) {
                (Some(d), Some(v)) => d@ == v,
                (None, None) => true,
                _ => false,
            },
    {
        self.temp_point.as_ref()
    }

    /// The active field, while one is chosen.
    pub fn get_currently_editing(&self) -> (r: Option<CurrentlyEditing>)
        ensures
            r == self.currently_editing,
    {
        self.currently_editing
    }

    /// Both points' coordinates, `((v1, p1), (v2, p2))`.
    pub fn get_points(&self) -> (r: ((Rat, Rat), (Rat, Rat)))
        requires
            self@.p1.valid(),
            self@.p2.valid(),
        ensures
            r.0.0@ == self@.p1.x.unwrap(),
            r.0.1@ == self@.p1.y.unwrap(),
            r.1.0@ == self@.p2.x.unwrap(),
            r.1.1@ == self@.p2.y.unwrap(),
    {
        (self.p1.get_val(), self.p2.get_val())
    }

    /// The controller's mode.
    pub fn get_mode(&self) -> (r: Mode)
        ensures
            r == self.mode,
    {
        self.mode
    }
}

/// The smaller of two values.
pub open spec fn imin(a: int, b: int) -> int {
    if a <= b {
        a
    } else {
        b
    }
}

/// The larger of two values.
pub open spec fn imax(a: int, b: int) -> int {
    if a >= b {
        a
    } else {
        b
    }
}

/// The smallest plotted coordinate across both axes, truncated to the
/// machine plotting range.
pub open spec fn plot_tmin(plot: Seq<(RatV, RatV)>) -> int {
    imin(
        imin(ratv_trunc_sat(plot[0].0), ratv_trunc_sat(plot[1].0)),
        imin(ratv_trunc_sat(plot[0].1), ratv_trunc_sat(plot[1].1)),
    )
}

/// The largest plotted coordinate across both axes, truncated to the
/// machine plotting range.
pub open spec fn plot_tmax(plot: Seq<(RatV, RatV)>) -> int {
    imax(
        imax(ratv_trunc_sat(plot[0].0), ratv_trunc_sat(plot[1].0)),
        imax(ratv_trunc_sat(plot[0].1), ratv_trunc_sat(plot[1].1)),
    )
}

/// One step of five below the largest multiple of five at or below `t`:
/// the lower axis bound lies strictly below every plotted value.
pub open spec fn round_down5(t: int) -> int {
    5 * (t / 5) - 5
}

/// One step of five above the largest multiple of five at or below `t`:
/// the upper axis bound lies strictly above every plotted value.
pub open spec fn round_up5(t: int) -> int {
    5 * (t / 5) + 5
}

impl App {
    /// Axis bounds and tick labels for the plot: both axes share one range,
    /// a rounded-to-five bracket around all plotted coordinates, labelled at
    /// five evenly spaced values. While nothing is plotted, a fixed default
    /// is returned instead.
    #[verifier::rlimit(30)]
    pub fn get_bounds(&self) -> (b: Bounds)
        requires
            self.wf(),
        ensures
            self@.plot.len() == 0 ==> b.bounds.0 == 0 && b.bounds.1 == 100 && b.labels@.len() == 2
                && b.labels@[0]@ == seq!['0'] && b.labels@[1]@ == seq!['1', '0'],
            self@.plot.len() != 0 ==> {
                let lo = round_down5(plot_tmin(self@.plot));
                let hi = round_up5(plot_tmax(self@.plot));
                &&& b.bounds.0 == lo
                &&& b.bounds.1 == hi
                &&& lo < hi
                &&& b.labels@.len() == 5
                &&& forall|k: int|
                    0 <= k < 5 ==> b.labels@[k]@ == label_str(lo * 100 + k * ((hi - lo) * 25))
            },
    {
        if self.plot.len() > 0 {
            proof {
                assert(self@.plot.len() == self.plot@.len());
                assert(self@.plot.len() == 2);
                assert(self@.plot[0] == (self.plot@[0].0@, self.plot@[0].1@));
                assert(self@.plot[1] == (self.plot@[1].0@, self.plot@[1].1@));
                assert(plot_wf(self@.plot));
                assert(self@.plot[0].0.wf() && self@.plot[0].1.wf());
                assert(self@.plot[1].0.wf() && self@.plot[1].1.wf());
            }
            let pair0 = self.plot[0];
            let pair1 = self.plot[1];
            let t00: i64 = pair0.0.trunc_sat() as i64;
            let t01: i64 = pair0.1.trunc_sat() as i64;
            let t10: i64 = pair1.0.trunc_sat() as i64;
            let t11: i64 = pair1.1.trunc_sat() as i64;
            let x_min_max = get_min_max(t00, t10);
            let y_min_max = get_min_max(t01, t11);
            let mn = get_min_max(x_min_max.0, y_min_max.0).0;
            let mx = get_min_max(y_min_max.1, x_min_max.1).1;
            let q_lo = div_floor_5(mn);
            let q_hi = div_floor_5(mx);
            let lo = 5 * q_lo - 5;
            let hi = 5 * q_hi + 5;
            let width = hi - lo;
            let mut labels: Vec<String> = Vec::new();
            labels.push(format_hundredths(lo * 100));
            labels.push(format_hundredths(lo * 100 + width * 25));
            labels.push(format_hundredths(lo * 100 + 2 * (width * 25)));
            labels.push(format_hundredths(lo * 100 + 3 * (width * 25)));
            labels.push(format_hundredths(lo * 100 + 4 * (width * 25)));
            proof {
                assert(mn == plot_tmin(self@.plot));
                assert(mx == plot_tmax(self@.plot));
                assert(labels@.len() == 5);
                assert(labels@[0]@ == label_str(lo * 100));
                assert(labels@[1]@ == label_str(lo * 100 + width * 25));
                assert(labels@[2]@ == label_str(lo * 100 + 2 * (width * 25)));
                assert(labels@[3]@ == label_str(lo * 100 + 3 * (width * 25)));
                assert(labels@[4]@ == label_str(lo * 100 + 4 * (width * 25)));
                assert forall|k: int|
                    0 <= k < 5 implies labels@[k]@ == label_str(
                    lo * 100 + k * ((hi - lo) * 25),
                ) by {
                    assert(k == 0 || k == 1 || k == 2 || k == 3 || k == 4);
                }
            }
            Bounds { bounds: (lo, hi), labels }
        } else {
            let mut labels: Vec<String> = Vec::new();
            labels.push(String::from_str("0"));
            labels.push(String::from_str("10"));
            proof {
                reveal_strlit("0");
                reveal_strlit("10");
                assert(labels@[0]@ =~= seq!['0']);
                assert(labels@[1]@ =~= seq!['1', '0']);
            }
            Bounds { bounds: (0, 100), labels }
        }
    }
}

/// `Quit` is terminal: no key moves the controller out of it, or changes
/// anything else.
pub proof fn lemma_quit_terminal(s: AppV, key: Key)
    requires
        s.mode == Mode::Quit,
    ensures
        step(s, key) == s,
{
}

/// From screen selection, `Cancel` always quits, whatever screen is
/// current and whatever else the state holds.
pub proof fn lemma_select_cancel_quits(s: AppV)
    requires
        s.mode == Mode::Select,
    ensures
        step(s, Key::Cancel).mode == Mode::Quit,
{
}

/// From text entry, `Cancel` always returns to field selection with the
/// draft discarded and nothing else changed: no point, line, query or
/// result is touched.
pub proof fn lemma_text_entry_cancel(s: AppV)
    requires
        s.mode == Mode::TextEntry,
    ensures
        step(s, Key::Cancel).mode == Mode::FieldSelect,
        step(s, Key::Cancel).draft is None,
        step(s, Key::Cancel).p1 == s.p1,
        step(s, Key::Cancel).p2 == s.p2,
        step(s, Key::Cancel).line == s.line,
        step(s, Key::Cancel).plot == s.plot,
        step(s, Key::Cancel).query == s.query,
        step(s, Key::Cancel).result == s.result,
        step(s, Key::Cancel).editing == s.editing,
        step(s, Key::Cancel).screen == s.screen,
{
}

/// Confirming a draft that is not a decimal number is a silent no-op: the
/// mode falls back to field selection and the draft is discarded, but
/// points, line, plot, query and result are left exactly as they were.
pub proof fn lemma_confirm_invalid_draft(s: AppV)
    requires
        s.mode == Mode::TextEntry,
        s.draft is Some,
        parse_of(s.draft.unwrap()) is None,
    ensures
        step(s, Key::Confirm) == (AppV { mode: Mode::FieldSelect, draft: None, ..s }),
{
    assert(step(s, Key::Confirm) =~= (AppV { mode: Mode::FieldSelect, draft: None, ..s }));
}

/// The smaller and the larger of two values, in that order.
pub fn get_min_max(a: i64, b: i64) -> (r: (i64, i64))
    ensures
        r == if a >= b {
            (b, a)
        } else {
            (a, b)
        },
        r.0 <= r.1,
{
    if a >= b {
        (b, a)
    } else {
        (a, b)
    }
}

/// The largest multiple of five at or below `t`, divided by five
/// (`t / 5` rounded toward minus infinity).
fn div_floor_5(t: i64) -> (q: i64)
    requires
        i32::MIN <= t <= i32::MAX,
    ensures
        q == t as int / 5,
        -429496730 <= q <= 429496729,
{
    if t >= 0 {
        ((t as u64) / 5) as i64
    } else {
        let mag: u64 = (-t) as u64;
        let q0 = mag / 5;
        let r0 = mag % 5;
        proof {
            lemma_fundamental_div_mod(mag as int, 5);
            if r0 == 0 {
                lemma_fundamental_div_mod_converse(t as int, 5, -(q0 as int), 0);
            } else {
                lemma_fundamental_div_mod_converse(t as int, 5, -(q0 as int) - 1, 5 - r0 as int);
            }
        }
        if r0 == 0 {
            -(q0 as i64)
        } else {
            -(q0 as i64) - 1
        }
    }
}

} // verus!
