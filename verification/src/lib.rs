//! Pluto watch framework: a verified library for a Casio F-91W-style watch.
//!
//! Faces implement [`face::Face`], the LCD and other hardware is abstracted
//! behind [`hardware::Hardware`] (a supertrait of [`display::Display`]), and
//! [`watch::Watch`] glues the two together and handles mode cycling.
use vstd::prelude::*;

pub mod bits;
pub mod display;
pub mod face;
pub mod faces;
pub mod font;
pub mod hardware;
pub mod input;
pub mod legacy;
pub mod letters;
pub mod recorder;
pub mod time;
pub mod watch;

verus! {
} // verus!
