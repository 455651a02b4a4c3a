//! The three patterns.

use vstd::prelude::*;

verus! {

/// The pattern that is shown while the stimulus runs.
#[derive(Clone, Copy, Debug, PartialEq, Eq, Structural)]
pub enum Mode {
    /// The whole window alternates between white and black.
    Flash,
    /// A soft-edged beam sweeps across the window.
    Sweep,
    /// A wedge turns about the window's centre.
    Lighthouse,
}

/// The name a mode goes by in the menu.
pub open spec fn mode_name_text(mode: Mode) -> Seq<char> {
    match mode {
        Mode::Flash => "Flash"@,
        Mode::Sweep => "Sweep"@,
        Mode::Lighthouse => "Lighthouse"@,
    }
}

/// The modes in the order the menu lists them.
pub fn all_modes() -> (modes: Vec<Mode>)
    ensures
        modes@ == seq![Mode::Flash, Mode::Sweep, Mode::Lighthouse],
{
    let mut modes: Vec<Mode> = Vec::new();
    modes.push(Mode::Flash);
    modes.push(Mode::Sweep);
    modes.push(Mode::Lighthouse);
    modes
}

/// Returns the name a mode goes by in the menu.
pub fn mode_name(mode: Mode) -> (name: &'static str)
    ensures
        name@ == mode_name_text(mode),
{
    match mode {
        Mode::Flash => "Flash",
        Mode::Sweep => "Sweep",
        Mode::Lighthouse => "Lighthouse",
    }
}

} // verus!
