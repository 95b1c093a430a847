//! Perceptually uniform stepping of a display backlight: the integer side of
//! the computation, with the range it works in and the words that drive it.

pub mod direction;
pub mod error;
pub mod range;
pub mod reading;
pub mod stepper;
