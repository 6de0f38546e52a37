//! Civil date/time math: the same calendar as the face runtime.
pub use crate::time::{DateTime, Month, Weekday};
