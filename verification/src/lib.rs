//! A two-point linear calibration library.
//!
//! Two calibration points (a voltage-like coordinate paired with a
//! physical-like coordinate) determine a line; the library derives that line,
//! answers "given one coordinate, what is the other?" queries against it,
//! drives the interactive edit/navigation state machine that lets a user
//! change the points, and computes rounded axis bounds with evenly spaced
//! tick labels for plotting.
//!
//! All values are exact rationals ([`rat::Rat`]), so every computation is
//! stated and proved exactly; a front end converts to machine floats only for
//! drawing.

pub mod app;
pub mod calculator;
pub mod rat;
pub mod text;

pub use rat::Rat;
pub use rat::RatV;
