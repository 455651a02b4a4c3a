//! What the user can pick from the menu and the quit dialog, and what each
//! pick asks of the shell that hosts the stimulus.

use vstd::prelude::*;
use crate::frequency::is_frequency_choice;
use crate::mode::{mode_name_text, Mode};

verus! {

/// With the window in fullscreen the menu bar is hidden until the pointer
/// comes within this many points of the top edge.
pub const MENU_REVEAL_HEIGHT: u64 = 60;

/// One pick by the user.
#[derive(Clone, Copy, Debug, PartialEq, Eq, Structural)]
pub enum MenuEvent {
    /// Start the stimulus, or stop it if it runs.
    StartStop,
    /// Ask to quit; a confirmation follows.
    Quit,
    /// Show another pattern.
    SelectMode(Mode),
    /// Run at another frequency, given in hertz.
    SelectFrequency(u64),
    /// Enter or leave fullscreen.
    ToggleFullscreen,
    /// Open the page that explains the stimulus.
    LearnMore,
    /// Quit for good.
    ConfirmQuit,
    /// Do not quit after all.
    CancelQuit,
}

/// What the shell has to do after an event, beyond repainting.
#[derive(Clone, Copy, Debug, PartialEq, Eq, Structural)]
pub enum Effect {
    /// Nothing.
    Nothing,
    /// Open the help page in the system's browser.
    OpenHelp,
    /// Close the window and end the program.
    CloseWindow,
}

impl MenuEvent {
    /// Whether the menu can produce this event: a frequency must be one of
    /// those on offer.
    pub open spec fn is_valid(self) -> bool {
        self matches MenuEvent::SelectFrequency(hz) ==> is_frequency_choice(hz as int)
    }

    /// What the event asks of the shell.
    pub open spec fn effect(self) -> Effect {
        match self {
            MenuEvent::LearnMore => Effect::OpenHelp,
            MenuEvent::ConfirmQuit => Effect::CloseWindow,
            _ => Effect::Nothing,
        }
    }
}

/// Address of the page that explains the stimulus.
pub fn help_url() -> (url: &'static str)
    ensures
        url@ == "https://en.wikipedia.org/wiki/Dreamachine"@,
{
    "https://en.wikipedia.org/wiki/Dreamachine"
}

/// Caption of the entry that starts or stops the stimulus.
pub open spec fn start_stop_text(flashing: bool) -> Seq<char> {
    if flashing {
        "Stop"@
    } else {
        "Start"@
    }
}

/// What follows the caption of an entry: a star where the entry names the
/// current choice, else nothing.
pub open spec fn marker_text(selected: bool) -> Seq<char> {
    if selected {
        " *"@
    } else {
        Seq::empty()
    }
}

/// How the menu writes a frequency on offer.
pub open spec fn frequency_name_text(hz: u64) -> Seq<char> {
    if hz == 8 {
        "8 Hz"@
    } else if hz == 9 {
        "9 Hz"@
    } else if hz == 10 {
        "10 Hz"@
    } else if hz == 11 {
        "11 Hz"@
    } else if hz == 12 {
        "12 Hz"@
    } else {
        "13 Hz"@
    }
}

/// Caption of the entry that starts or stops the stimulus.
pub fn start_stop_label(flashing: bool) -> (label: &'static str)
    ensures
        label@ == start_stop_text(flashing),
{
    if flashing {
        "Stop"
    } else {
        "Start"
    }
}

/// Caption of the entry for `mode`, starred if it is the current one.
pub fn mode_label(mode: Mode, selected: bool) -> (label: &'static str)
    ensures
        label@ == mode_name_text(mode) + marker_text(selected),
{
    proof {
        reveal_strlit("Flash");
        reveal_strlit("Sweep");
        reveal_strlit("Lighthouse");
        reveal_strlit(" *");
        reveal_strlit("Flash *");
        reveal_strlit("Sweep *");
        reveal_strlit("Lighthouse *");
    }
    match mode {
        Mode::Flash => if selected {
            "Flash *"
        } else {
            "Flash"
        },
        Mode::Sweep => if selected {
            "Sweep *"
        } else {
            "Sweep"
        },
        Mode::Lighthouse => if selected {
            "Lighthouse *"
        } else {
            "Lighthouse"
        },
    }
}

/// Caption of the entry for the frequency `hz`, starred if it is the current
/// one.
pub fn frequency_label(hz: u64, selected: bool) -> (label: &'static str)
    requires
        is_frequency_choice(hz as int),
    ensures
        label@ == frequency_name_text(hz) + marker_text(selected),
{
    proof {
        reveal_strlit("8 Hz");
        reveal_strlit("9 Hz");
        reveal_strlit("10 Hz");
        reveal_strlit("11 Hz");
        reveal_strlit("12 Hz");
        reveal_strlit("13 Hz");
        reveal_strlit(" *");
        reveal_strlit("8 Hz *");
        reveal_strlit("9 Hz *");
        reveal_strlit("10 Hz *");
        reveal_strlit("11 Hz *");
        reveal_strlit("12 Hz *");
        reveal_strlit("13 Hz *");
    }
    if hz == 8 {
        if selected {
            "8 Hz *"
        } else {
            "8 Hz"
        }
    } else if hz == 9 {
        if selected {
            "9 Hz *"
        } else {
            "9 Hz"
        }
    } else if hz == 10 {
        if selected {
            "10 Hz *"
        } else {
            "10 Hz"
        }
    } else if hz == 11 {
        if selected {
            "11 Hz *"
        } else {
            "11 Hz"
        }
    } else if hz == 12 {
        if selected {
            "12 Hz *"
        } else {
            "12 Hz"
        }
    } else {
        if selected {
            "13 Hz *"
        } else {
            "13 Hz"
        }
    }
}

/// Caption of the entry that enters or leaves fullscreen, starred while the
/// window fills the screen.
pub fn fullscreen_label(fullscreen: bool) -> (label: &'static str)
    ensures
        label@ == "Fullscreen"@ + marker_text(fullscreen),
{
    proof {
        reveal_strlit("Fullscreen");
        reveal_strlit(" *");
        reveal_strlit("Fullscreen *");
    }
    if fullscreen {
        "Fullscreen *"
    } else {
        "Fullscreen"
    }
}

} // verus!
