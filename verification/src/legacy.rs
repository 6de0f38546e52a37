//! The app/view framework of the pluto firmware, kept beside the face
//! runtime: apps made of views, driven by [`app::Runtime`], drawing through
//! the position-based glass model of [`display`] and [`lcd`].
//!
//! - [`display`]: the F-91W glass in pluto's position-based coordinates.
//! - [`lcd`]: high-level drawing (integers, text, indicators).
//! - [`app`]: the app/view runtime and event model.
//! - [`input`]: button gesture recognition.
//! - [`time`]: civil date/time math.
//! - [`hw`]: the hardware interface (RTC, backlight, buzzer).
//! - [`apps`]: the launcher, the time app and the configuration app.
pub mod app;
pub mod apps;
pub mod display;
pub mod hw;
pub mod input;
pub mod lcd;
pub mod time;

pub use app::{App, Event, Runtime, View};
pub use display::{DigitDisplay, Display, Indicator};
pub use hw::{Hardware, Timedate};
pub use input::{ButtonScanner, KeyId};
pub use lcd::Lcd;
pub use time::DateTime;
