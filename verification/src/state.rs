//! The stimulus as a mathematical state, and how events and the passage of
//! time change it.

use vstd::prelude::*;
use crate::frequency::{interval_for, is_frequency_choice, DEFAULT_FREQUENCY};
use crate::lighthouse::{beacon_at, beam_angle};
use crate::menu::MenuEvent;
use crate::mode::Mode;
use crate::stimulus::Picture;
use crate::lighthouse::lighthouse_turns_once_per_period;
use crate::sweep::{
    beam_at, beam_center, sweep_period, sweep_phase, sweep_repeats_every_period, BEAM_WIDTH,
};
use crate::units::{elapsed_between, WHOLE};

verus! {

/// Everything the stimulus remembers between frames. Instants and durations
/// are in nanoseconds, the beam width in billionths of the window width.
pub struct DreamState {
    /// Whether the stimulus runs.
    pub flashing: bool,
    /// Whether the blink is in its white half.
    pub show_white: bool,
    /// When the blink last changed halves.
    pub last_toggle: nat,
    /// Time between two changes of the blink.
    pub interval: nat,
    /// The pattern shown while the stimulus runs.
    pub mode: Mode,
    /// When the sweep began.
    pub sweep_start: nat,
    /// When the lighthouse began to turn.
    pub spin_start: nat,
    /// Width of the sweep beam.
    pub beam_width_norm: nat,
    /// Blinks and turns per second.
    pub frequency_hz: nat,
    /// Sweeps per second.
    pub sweep_speed: nat,
    /// Whether the user is being asked to confirm quitting.
    pub confirm_quit: bool,
    /// Whether the window fills the screen.
    pub fullscreen: bool,
}

impl DreamState {
    /// The state a session starts in at instant `now`: stopped, in sweep
    /// mode, at the default frequency.
    pub open spec fn initial(now: nat) -> DreamState {
        DreamState {
            flashing: false,
            show_white: false,
            last_toggle: now,
            interval: interval_for(DEFAULT_FREQUENCY as int) as nat,
            mode: Mode::Sweep,
            sweep_start: now,
            spin_start: now,
            beam_width_norm: BEAM_WIDTH as nat,
            frequency_hz: DEFAULT_FREQUENCY as nat,
            sweep_speed: DEFAULT_FREQUENCY as nat,
            confirm_quit: false,
            fullscreen: false,
        }
    }

    /// The rates agree with each other: the frequency is one of those on
    /// offer, the sweep runs at it, the blink interval is its reciprocal, and
    /// the beam has its fixed width.
    pub open spec fn consistent(self) -> bool {
        &&& is_frequency_choice(self.frequency_hz as int)
        &&& self.sweep_speed == self.frequency_hz
        &&& self.interval == interval_for(self.frequency_hz as int)
        &&& self.beam_width_norm == BEAM_WIDTH
    }

    /// Whether a frame at `now` changes the blink: the stimulus runs and a
    /// full interval has passed since the last change.
    pub open spec fn blink_due(self, now: nat) -> bool {
        self.flashing && elapsed_between(self.last_toggle as int, now as int) >= self.interval
    }

    /// The state after a frame at `now`.
    pub open spec fn after_tick(self, now: nat) -> DreamState {
        if self.blink_due(now) {
            DreamState { show_white: !self.show_white, last_toggle: now, ..self }
        } else {
            self
        }
    }

    /// The state after the user starts or stops the stimulus at `now`: the
    /// blink begins anew in its black half.
    pub open spec fn after_start_stop(self, now: nat) -> DreamState {
        DreamState { flashing: !self.flashing, last_toggle: now, show_white: false, ..self }
    }

    /// The state after the user picks `mode` at `now`. Picking the lighthouse
    /// restarts its turn; picking either other mode restarts the sweep.
    pub open spec fn after_mode(self, mode: Mode, now: nat) -> DreamState {
        match mode {
            Mode::Lighthouse => DreamState { mode, spin_start: now, ..self },
            _ => DreamState { mode, sweep_start: now, ..self },
        }
    }

    /// The state after the user picks the frequency `hz`.
    pub open spec fn after_frequency(self, hz: nat) -> DreamState {
        DreamState {
            frequency_hz: hz,
            interval: interval_for(hz as int) as nat,
            sweep_speed: hz,
            ..self
        }
    }

    /// The state after `event` arrives at `now`.
    pub open spec fn after_event(self, event: MenuEvent, now: nat) -> DreamState {
        match event {
            MenuEvent::StartStop => self.after_start_stop(now),
            MenuEvent::Quit => DreamState { confirm_quit: true, ..self },
            MenuEvent::SelectMode(mode) => self.after_mode(mode, now),
            MenuEvent::SelectFrequency(hz) => self.after_frequency(hz as nat),
            MenuEvent::ToggleFullscreen => DreamState { fullscreen: !self.fullscreen, ..self },
            MenuEvent::LearnMore => self,
            MenuEvent::ConfirmQuit => self,
            MenuEvent::CancelQuit => DreamState { confirm_quit: false, ..self },
        }
    }

    /// Time the sweep has been running at `now`.
    pub open spec fn sweep_elapsed(self, now: nat) -> int {
        elapsed_between(self.sweep_start as int, now as int)
    }

    /// Time the lighthouse has been turning at `now`.
    pub open spec fn spin_elapsed(self, now: nat) -> int {
        elapsed_between(self.spin_start as int, now as int)
    }

    /// What is painted at `now`: black while stopped, else the pattern of the
    /// current mode, which depends on nothing but the state and the time
    /// since the pattern began.
    pub open spec fn picture(self, now: nat) -> Picture {
        if !self.flashing {
            Picture::Fill { white: false }
        } else {
            match self.mode {
                Mode::Flash => Picture::Fill { white: self.show_white },
                Mode::Sweep => Picture::Beam {
                    slices: beam_at(
                        beam_center(
                            self.sweep_elapsed(now),
                            self.sweep_speed as int,
                            self.beam_width_norm as int,
                        ),
                        self.beam_width_norm as int,
                    ),
                },
                Mode::Lighthouse => Picture::Lighthouse {
                    beacon: beacon_at(self.spin_elapsed(now), self.frequency_hz as int),
                },
            }
        }
    }

    /// Whether the menu bar is shown: always in a window, and in fullscreen
    /// only while the pointer is near the top edge.
    pub open spec fn menu_visible(self, pointer_near_top: bool) -> bool {
        !self.fullscreen || pointer_near_top
    }
}

/// A session starts out consistent, and no event a menu can produce nor any
/// frame makes it inconsistent.
pub proof fn consistency_is_kept(state: DreamState, event: MenuEvent, now: nat)
    requires
        state.consistent(),
        event.is_valid(),
    ensures
        DreamState::initial(now).consistent(),
        state.after_event(event, now).consistent(),
        state.after_tick(now).consistent(),
{
}

/// Picking the sweep or the lighthouse starts that pattern from its
/// beginning, however long the previous one has run: at the instant of the
/// switch the sweep is at phase zero, with the beam's centre half a beam
/// width left of the window, and the lighthouse points at angle zero.
pub proof fn mode_switch_restarts_pattern(state: DreamState, mode: Mode, now: nat)
    requires
        mode != Mode::Flash,
    ensures
        state.after_mode(mode, now).mode == mode,
        mode == Mode::Sweep ==> {
            let next = state.after_mode(mode, now);
            &&& next.sweep_elapsed(now) == 0
            &&& sweep_phase(
                next.sweep_elapsed(now),
                next.sweep_speed as int,
                next.beam_width_norm as int,
            ) == 0
            &&& beam_center(
                next.sweep_elapsed(now),
                next.sweep_speed as int,
                next.beam_width_norm as int,
            ) == -(next.beam_width_norm as int / 2)
        },
        mode == Mode::Lighthouse ==> {
            let next = state.after_mode(mode, now);
            &&& next.spin_elapsed(now) == 0
            &&& beam_angle(next.spin_elapsed(now), next.frequency_hz as int) == 0
        },
{
    // No time has passed since the switch, so no part of a cycle has either.
    let next = state.after_mode(mode, now);
    assert(0 * (next.sweep_speed as int) == 0);
    assert(0 * (next.frequency_hz as int) == 0);
}

/// What is painted depends on nothing but the mode, the settings that the
/// mode uses, and the time since its pattern began: two states that agree
/// on these show the same picture, whenever they were started and whatever
/// else they hold. A stopped stimulus shows the same black in any state.
pub proof fn picture_depends_on_elapsed_time(a: DreamState, at_a: nat, b: DreamState, at_b: nat)
    requires
        a.flashing == b.flashing,
        a.flashing ==> a.mode == b.mode,
        a.flashing && a.mode == Mode::Flash ==> a.show_white == b.show_white,
        a.flashing && a.mode == Mode::Sweep ==> {
            &&& a.sweep_speed == b.sweep_speed
            &&& a.beam_width_norm == b.beam_width_norm
            &&& a.sweep_elapsed(at_a) == b.sweep_elapsed(at_b)
        },
        a.flashing && a.mode == Mode::Lighthouse ==> {
            &&& a.frequency_hz == b.frequency_hz
            &&& a.spin_elapsed(at_a) == b.spin_elapsed(at_b)
        },
    ensures
        a.picture(at_a) == b.picture(at_b),
{
}

/// In sweep mode the picture repeats with the sweep's period, the time in
/// which the beam travels the window's width and its own: a frame `shift`
/// nanoseconds later shows the same beam whenever `shift` amounts to a whole
/// number of periods.
pub proof fn sweep_picture_repeats(state: DreamState, now: nat, shift: nat, cycles: nat)
    requires
        state.mode == Mode::Sweep,
        state.sweep_start <= now,
        shift * state.sweep_speed == cycles * sweep_period(state.beam_width_norm as int),
    ensures
        state.picture(now + shift) == state.picture(now),
{
    sweep_repeats_every_period(
        (now - state.sweep_start) as nat,
        shift,
        cycles,
        state.sweep_speed,
        state.beam_width_norm,
    );
}

/// In lighthouse mode the picture repeats once per turn: a frame `shift`
/// nanoseconds later shows the same beam whenever `shift` amounts to a whole
/// number of turns at the current frequency.
pub proof fn lighthouse_picture_repeats(state: DreamState, now: nat, shift: nat, turns: nat)
    requires
        state.mode == Mode::Lighthouse,
        state.spin_start <= now,
        shift * state.frequency_hz == turns * WHOLE,
    ensures
        state.picture(now + shift) == state.picture(now),
{
    lighthouse_turns_once_per_period(
        (now - state.spin_start) as nat,
        shift,
        turns,
        state.frequency_hz,
    );
}

} // verus!
