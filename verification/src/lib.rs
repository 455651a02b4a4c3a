//! Timing and geometry of a stroboscopic light stimulus.
//!
//! The stimulus fills a window with one of three patterns: a blink between
//! white and black, a soft-edged beam that sweeps across, or a wedge that
//! turns like the beam of a lighthouse. Everything here is a function of the
//! state and of the clock reading it is given. A shell around it owns the
//! window, reads the clock, feeds in what the user picks, and paints what
//! [`app::DreamApp::frame`] describes.
//!
//! All quantities are integers: instants in nanoseconds, positions in
//! billionths of the window width, angles in billionths of a turn.

pub mod app;
pub mod blink;
pub mod color;
pub mod frequency;
pub mod lighthouse;
pub mod menu;
pub mod mode;
pub mod state;
pub mod stimulus;
pub mod sweep;
pub mod units;
