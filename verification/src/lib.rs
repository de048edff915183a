//! Normalized parameter values and the drag gesture that moves them.
//!
//! A control's position along its range is a [`normal::NormalizedValue`]: a
//! whole number of steps between 0 and [`normal::FULL_SCALE`]. The
//! [`gesture`] module turns pointer and keyboard events, given in the terms
//! of [`input`], into such values; [`trace`] says what holds over whole
//! sequences of events, and [`style`] holds the styles of a slider's marks.
//!
//! All quantities are whole numbers: positions in position units of the
//! host's choosing, values in steps, rates in steps per position unit.

pub mod gesture;
pub mod input;
pub mod normal;
pub mod style;
pub mod trace;
