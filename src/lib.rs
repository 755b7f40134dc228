//! A wall-clock display core: the time shown at UTC+9, the text fields that
//! show it, and the tick bridge that tells the UI thread when to refresh.

pub mod bridge;
pub mod clock;
pub mod display;
