//! The stimulus as the program holds it: one record that the menu changes,
//! each frame advances, and the painter reads.

use vstd::prelude::*;
use crate::frequency::{blink_interval, is_frequency_choice, DEFAULT_FREQUENCY};
use crate::lighthouse::render_lighthouse;
use crate::menu::{
    frequency_label, frequency_name_text, fullscreen_label, marker_text, mode_label,
    start_stop_label, start_stop_text, Effect, MenuEvent,
};
use crate::mode::mode_name_text;
use crate::mode::Mode;
use crate::state::DreamState;
use crate::stimulus::Stimulus;
use crate::sweep::{render_sweep, BEAM_WIDTH};
use crate::units::elapsed;

verus! {

/// The running stimulus. Its rates are always consistent with each other; see
/// [`DreamState::consistent`].
#[derive(Debug)]
pub struct DreamApp {
    flashing: bool,
    show_white: bool,
    last_toggle: u64,
    interval: u64,
    mode: Mode,
    sweep_start: u64,
    spin_start: u64,
    beam_width_norm: u64,
    frequency_hz: u64,
    sweep_speed: u64,
    confirm_quit: bool,
    fullscreen: bool,
}

impl View for DreamApp {
    type V = DreamState;

    closed spec fn view(&self) -> DreamState {
        DreamState {
            flashing: self.flashing,
            show_white: self.show_white,
            last_toggle: self.last_toggle as nat,
            interval: self.interval as nat,
            mode: self.mode,
            sweep_start: self.sweep_start as nat,
            spin_start: self.spin_start as nat,
            beam_width_norm: self.beam_width_norm as nat,
            frequency_hz: self.frequency_hz as nat,
            sweep_speed: self.sweep_speed as nat,
            confirm_quit: self.confirm_quit,
            fullscreen: self.fullscreen,
        }
    }
}

impl Default for DreamApp {
    /// A stimulus for a session that begins at the clock's origin.
    fn default() -> (app: DreamApp)
        ensures
            app@ == DreamState::initial(0),
            app@.consistent(),
    {
        DreamApp::new(0)
    }
}

impl DreamApp {
    #[verifier::type_invariant]
    closed spec fn rates_agree(&self) -> bool {
        self@.consistent()
    }

    /// A stimulus for a session that begins at instant `now`.
    pub fn new(now: u64) -> (app: DreamApp)
        ensures
            app@ == DreamState::initial(now as nat),
            app@.consistent(),
    {
        DreamApp {
            flashing: false,
            show_white: false,
            last_toggle: now,
            interval: blink_interval(DEFAULT_FREQUENCY),
            mode: Mode::Sweep,
            sweep_start: now,
            spin_start: now,
            beam_width_norm: BEAM_WIDTH,
            frequency_hz: DEFAULT_FREQUENCY,
            sweep_speed: DEFAULT_FREQUENCY,
            confirm_quit: false,
            fullscreen: false,
        }
    }

    /// Advances the blink to the frame at `now` and tells whether it changed.
    pub fn tick(&mut self, now: u64) -> (toggled: bool)
        ensures
            toggled == old(self)@.blink_due(now as nat),
            final(self)@ == old(self)@.after_tick(now as nat),
            final(self)@.consistent(),
    {
        proof {
            use_type_invariant(&*self);
        }
        if self.flashing && elapsed(self.last_toggle, now) >= self.interval {
            self.show_white = !self.show_white;
            self.last_toggle = now;
            true
        } else {
            false
        }
    }

    /// What to paint at `now`.
    pub fn frame(&self, now: u64) -> (out: Stimulus)
        ensures
            out@ == self@.picture(now as nat),
            out@.is_white(),
            self@.consistent(),
    {
        proof {
            use_type_invariant(self);
        }
        if !self.flashing {
            Stimulus::Fill { white: false }
        } else {
            match self.mode {
                Mode::Flash => Stimulus::Fill { white: self.show_white },
                Mode::Sweep => Stimulus::Beam {
                    slices: render_sweep(
                        elapsed(self.sweep_start, now),
                        self.sweep_speed,
                        self.beam_width_norm,
                    ),
                },
                Mode::Lighthouse => Stimulus::Lighthouse {
                    beacon: render_lighthouse(elapsed(self.spin_start, now), self.frequency_hz),
                },
            }
        }
    }

    /// One frame: advances the blink to `now`, then says what to paint.
    pub fn update(&mut self, now: u64) -> (out: Stimulus)
        ensures
            final(self)@ == old(self)@.after_tick(now as nat),
            final(self)@.consistent(),
            out@ == old(self)@.after_tick(now as nat).picture(now as nat),
            out@.is_white(),
    {
        self.tick(now);
        self.frame(now)
    }

    /// Starts the stimulus, or stops it if it runs. Either way the blink
    /// begins anew at `now` in its black half.
    pub fn start_stop(&mut self, now: u64)
        ensures
            final(self)@ == old(self)@.after_start_stop(now as nat),
            final(self)@.consistent(),
    {
        proof {
            use_type_invariant(&*self);
        }
        self.flashing = !self.flashing;
        self.last_toggle = now;
        self.show_white = false;
    }

    /// Switches to `mode` and restarts its pattern at `now`.
    pub fn select_mode(&mut self, mode: Mode, now: u64)
        ensures
            final(self)@ == old(self)@.after_mode(mode, now as nat),
            final(self)@.consistent(),
    {
        proof {
            use_type_invariant(&*self);
        }
        self.mode = mode;
        match mode {
            Mode::Lighthouse => {
                self.spin_start = now;
            },
            _ => {
                self.sweep_start = now;
            },
        }
    }

    /// Runs the stimulus at `hz` from now on: blink, sweep and lighthouse
    /// all follow.
    pub fn set_frequency(&mut self, hz: u64)
        requires
            is_frequency_choice(hz as int),
        ensures
            final(self)@ == old(self)@.after_frequency(hz as nat),
            final(self)@.consistent(),
    {
        proof {
            use_type_invariant(&*self);
        }
        let interval: u64 = blink_interval(hz);
        *self = DreamApp { frequency_hz: hz, interval, sweep_speed: hz, ..*self };
    }

    /// Applies one pick by the user at `now` and returns what the shell has
    /// to do about it.
    pub fn handle(&mut self, event: MenuEvent, now: u64) -> (effect: Effect)
        requires
            event.is_valid(),
        ensures
            final(self)@ == old(self)@.after_event(event, now as nat),
            final(self)@.consistent(),
            effect == event.effect(),
    {
        proof {
            use_type_invariant(&*self);
        }
        match event {
            MenuEvent::StartStop => {
                self.start_stop(now);
                Effect::Nothing
            },
            MenuEvent::Quit => {
                self.confirm_quit = true;
                Effect::Nothing
            },
            MenuEvent::SelectMode(mode) => {
                self.select_mode(mode, now);
                Effect::Nothing
            },
            MenuEvent::SelectFrequency(hz) => {
                self.set_frequency(hz);
                Effect::Nothing
            },
            MenuEvent::ToggleFullscreen => {
                self.fullscreen = !self.fullscreen;
                Effect::Nothing
            },
            MenuEvent::LearnMore => Effect::OpenHelp,
            MenuEvent::ConfirmQuit => Effect::CloseWindow,
            MenuEvent::CancelQuit => {
                self.confirm_quit = false;
                Effect::Nothing
            },
        }
    }

    /// Whether the menu bar is shown, given whether the pointer is within
    /// [`crate::menu::MENU_REVEAL_HEIGHT`] of the top edge.
    pub fn menu_visible(&self, pointer_near_top: bool) -> (visible: bool)
        ensures
            visible == self@.menu_visible(pointer_near_top),
    {
        !self.fullscreen || pointer_near_top
    }

    /// Caption of the menu entry that starts or stops the stimulus.
    pub fn start_stop_label(&self) -> (label: &'static str)
        ensures
            label@ == start_stop_text(self@.flashing),
    {
        start_stop_label(self.flashing)
    }

    /// Caption of the menu entry for `mode`, starred if it is the current
    /// mode.
    pub fn mode_label(&self, mode: Mode) -> (label: &'static str)
        ensures
            label@ == mode_name_text(mode) + marker_text(self@.mode == mode),
    {
        mode_label(mode, self.mode == mode)
    }

    /// Caption of the menu entry for the frequency `hz`, starred if it is
    /// the current frequency.
    pub fn frequency_label(&self, hz: u64) -> (label: &'static str)
        requires
            is_frequency_choice(hz as int),
        ensures
            label@ == frequency_name_text(hz) + marker_text(self@.frequency_hz == hz),
    {
        frequency_label(hz, self.frequency_hz == hz)
    }

    /// Caption of the menu entry that enters or leaves fullscreen, starred
    /// while the window fills the screen.
    pub fn fullscreen_label(&self) -> (label: &'static str)
        ensures
            label@ == "Fullscreen"@ + marker_text(self@.fullscreen),
    {
        fullscreen_label(self.fullscreen)
    }

    /// Whether the stimulus runs.
    pub fn flashing(&self) -> (value: bool)
        ensures
            value == self@.flashing,
    {
        self.flashing
    }

    /// Whether the blink is in its white half.
    pub fn show_white(&self) -> (value: bool)
        ensures
            value == self@.show_white,
    {
        self.show_white
    }

    /// When the blink last changed halves.
    pub fn last_toggle(&self) -> (value: u64)
        ensures
            value == self@.last_toggle,
    {
        self.last_toggle
    }

    /// Nanoseconds between two changes of the blink.
    pub fn interval(&self) -> (value: u64)
        ensures
            value == self@.interval,
            self@.consistent(),
    {
        proof {
            use_type_invariant(self);
        }
        self.interval
    }

    /// The pattern shown while the stimulus runs.
    pub fn mode(&self) -> (value: Mode)
        ensures
            value == self@.mode,
    {
        self.mode
    }

    /// When the sweep began.
    pub fn sweep_start(&self) -> (value: u64)
        ensures
            value == self@.sweep_start,
    {
        self.sweep_start
    }

    /// When the lighthouse began to turn.
    pub fn spin_start(&self) -> (value: u64)
        ensures
            value == self@.spin_start,
    {
        self.spin_start
    }

    /// Width of the sweep beam in billionths of the window width.
    pub fn beam_width_norm(&self) -> (value: u64)
        ensures
            value == self@.beam_width_norm,
            self@.consistent(),
    {
        proof {
            use_type_invariant(self);
        }
        self.beam_width_norm
    }

    /// Blinks and turns per second.
    pub fn frequency_hz(&self) -> (value: u64)
        ensures
            value == self@.frequency_hz,
            self@.consistent(),
    {
        proof {
            use_type_invariant(self);
        }
        self.frequency_hz
    }

    /// Sweeps per second.
    pub fn sweep_speed(&self) -> (value: u64)
        ensures
            value == self@.sweep_speed,
            self@.consistent(),
    {
        proof {
            use_type_invariant(self);
        }
        self.sweep_speed
    }

    /// Whether the user is being asked to confirm quitting.
    pub fn confirm_quit(&self) -> (value: bool)
        ensures
            value == self@.confirm_quit,
    {
        self.confirm_quit
    }

    /// Whether the window fills the screen.
    pub fn fullscreen(&self) -> (value: bool)
        ensures
            value == self@.fullscreen,
    {
        self.fullscreen
    }
}

} // verus!
