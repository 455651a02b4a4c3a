use dreamachine::app::DreamApp;
use dreamachine::color::Color;
use dreamachine::frequency::frequency_choices;
use dreamachine::menu::{
    frequency_label, fullscreen_label, help_url, mode_label, start_stop_label, Effect, MenuEvent,
    MENU_REVEAL_HEIGHT,
};
use dreamachine::mode::{all_modes, mode_name, Mode};
use dreamachine::stimulus::Stimulus;
use dreamachine::sweep::{render_sweep, BEAM_WIDTH};
use dreamachine::lighthouse::render_lighthouse;

const MS: u64 = 1_000_000;

fn running(mode: Mode, at: u64) -> DreamApp {
    let mut app = DreamApp::new(at);
    app.start_stop(at);
    app.select_mode(mode, at);
    app
}

#[test]
fn a_session_starts_stopped_in_sweep_mode_at_ten_hertz() {
    let app = DreamApp::new(42);
    assert!(!app.flashing());
    assert!(!app.show_white());
    assert_eq!(app.last_toggle(), 42);
    assert_eq!(app.interval(), 100 * MS);
    assert_eq!(app.mode(), Mode::Sweep);
    assert_eq!(app.sweep_start(), 42);
    assert_eq!(app.spin_start(), 42);
    assert_eq!(app.beam_width_norm(), 400_000_000);
    assert_eq!(app.beam_width_norm(), BEAM_WIDTH);
    assert_eq!(app.frequency_hz(), 10);
    assert_eq!(app.sweep_speed(), 10);
    assert!(!app.confirm_quit());
    assert!(!app.fullscreen());
}

#[test]
fn a_stopped_stimulus_is_black() {
    let mut app = DreamApp::new(0);
    for mode in all_modes() {
        app.select_mode(mode, 0);
        assert_eq!(app.frame(50 * MS), Stimulus::Fill { white: false });
    }
}

#[test]
fn a_stopped_stimulus_does_not_blink() {
    let mut app = DreamApp::new(0);
    assert!(!app.tick(500 * MS));
    assert!(!app.show_white());
    assert_eq!(app.last_toggle(), 0);
}

#[test]
fn start_stop_flips_and_resets_the_blink() {
    let mut app = running(Mode::Flash, 0);
    assert!(app.flashing());
    assert!(app.tick(100 * MS));
    assert!(app.show_white());
    app.start_stop(130 * MS);
    assert!(!app.flashing());
    assert!(!app.show_white());
    assert_eq!(app.last_toggle(), 130 * MS);
    app.start_stop(170 * MS);
    assert!(app.flashing());
    assert!(!app.show_white());
    assert_eq!(app.last_toggle(), 170 * MS);
    assert!(!app.tick(269 * MS));
    assert!(app.tick(270 * MS));
}

#[test]
fn start_stop_label_names_the_action() {
    let mut app = DreamApp::new(0);
    assert_eq!(app.start_stop_label(), "Start");
    app.start_stop(1);
    assert_eq!(app.start_stop_label(), "Stop");
    app.start_stop(2);
    assert_eq!(app.start_stop_label(), "Start");
}

#[test]
fn blink_flips_three_times_in_350_milliseconds() {
    let mut app = running(Mode::Flash, 0);
    assert_eq!(app.interval(), 100 * MS);
    let initial = app.show_white();
    let mut flips = 0;
    let mut now = 0;
    while now <= 350 * MS {
        if app.tick(now) {
            flips += 1;
        }
        now += MS;
    }
    assert_eq!(flips, 3);
    assert_eq!(app.show_white(), !initial);
    assert_eq!(app.last_toggle(), 300 * MS);
}

#[test]
fn blink_waits_a_full_interval() {
    let mut app = running(Mode::Flash, 1_000);
    assert!(!app.tick(1_000));
    assert!(!app.tick(1_000 + 100 * MS - 1));
    assert!(!app.show_white());
    assert!(app.tick(1_000 + 100 * MS));
    assert!(app.show_white());
    assert_eq!(app.last_toggle(), 1_000 + 100 * MS);
    assert!(!app.tick(1_000 + 100 * MS));
    assert!(app.tick(1_000 + 200 * MS));
    assert!(!app.show_white());
}

#[test]
fn a_late_frame_flips_the_blink_once() {
    let mut app = running(Mode::Flash, 0);
    assert!(app.tick(350 * MS));
    assert!(app.show_white());
    assert_eq!(app.last_toggle(), 350 * MS);
    assert!(!app.tick(449 * MS));
    assert!(app.tick(450 * MS));
}

#[test]
fn blink_count_stays_within_one_of_the_quotient() {
    for hz in [8u64, 9, 10, 11, 12, 13] {
        let mut app = running(Mode::Flash, 0);
        app.set_frequency(hz);
        let interval = app.interval();
        let first = 7 * MS;
        let last = 1_007 * MS;
        let mut flips: u64 = 0;
        let mut now = first;
        // A frame every 100 microseconds, and one at every instant the blink is due.
        while now <= last {
            let due = app.last_toggle() + interval;
            if now < due && due < now + 100_000 && due <= last && app.tick(due) {
                flips += 1;
            }
            if app.tick(now) {
                flips += 1;
            }
            now += 100_000;
        }
        let quotient = (last - first) / interval;
        assert!(quotient <= flips + 1 && flips <= quotient + 1, "{} Hz: {}", hz, flips);
    }
}

#[test]
fn blink_runs_in_every_mode() {
    for mode in all_modes() {
        let mut app = running(mode, 0);
        assert!(app.tick(100 * MS));
        assert!(app.show_white());
    }
}

#[test]
fn a_clock_that_steps_back_does_not_blink() {
    let mut app = running(Mode::Flash, 500 * MS);
    assert!(!app.tick(0));
    assert!(!app.tick(499 * MS));
    assert_eq!(app.last_toggle(), 500 * MS);
}

#[test]
fn flash_fills_the_window_with_the_blink() {
    let mut app = running(Mode::Flash, 0);
    assert_eq!(app.frame(10 * MS), Stimulus::Fill { white: false });
    assert!(app.tick(100 * MS));
    assert_eq!(app.frame(110 * MS), Stimulus::Fill { white: true });
    assert!(app.tick(200 * MS));
    assert_eq!(app.frame(210 * MS), Stimulus::Fill { white: false });
}

#[test]
fn sweep_paints_the_beam_since_the_sweep_began() {
    let app = running(Mode::Sweep, 30 * MS);
    let frame = app.frame(100 * MS);
    assert_eq!(frame, Stimulus::Beam { slices: render_sweep(70 * MS, 10, BEAM_WIDTH) });
    match frame {
        Stimulus::Beam { slices } => {
            assert_eq!(slices.len(), 60);
            assert_eq!(slices[0].left, 300_000_000);
            assert_eq!(slices[59].right, 700_000_000);
            assert_eq!(slices[30].color, Color { r: 250, g: 250, b: 250, a: 250 });
        }
        other => panic!("not a beam: {:?}", other),
    }
}

#[test]
fn sweep_follows_the_chosen_frequency() {
    let mut app = running(Mode::Sweep, 0);
    app.set_frequency(8);
    assert_eq!(app.frame(70 * MS), Stimulus::Beam { slices: render_sweep(70 * MS, 8, BEAM_WIDTH) });
}

#[test]
fn lighthouse_paints_the_beam_since_the_turn_began() {
    let mut app = running(Mode::Lighthouse, 50 * MS);
    assert_eq!(
        app.frame(75 * MS),
        Stimulus::Lighthouse { beacon: render_lighthouse(25 * MS, 10) }
    );
    app.set_frequency(13);
    match app.frame(51 * MS) {
        Stimulus::Lighthouse { beacon } => {
            assert_eq!(beacon.angle, 13_000_000);
            assert_eq!(beacon.outer.alpha, 80);
            assert_eq!(beacon.inner.alpha, 255);
        }
        other => panic!("not a lighthouse: {:?}", other),
    }
}

#[test]
fn the_same_clock_reading_gives_the_same_frame() {
    for mode in all_modes() {
        let app = running(mode, 3 * MS);
        assert_eq!(app.frame(77 * MS), app.frame(77 * MS));
    }
}

#[test]
fn switching_to_sweep_starts_it_at_phase_zero() {
    let mut app = running(Mode::Lighthouse, 0);
    app.select_mode(Mode::Sweep, 12_345 * MS);
    assert_eq!(app.mode(), Mode::Sweep);
    assert_eq!(app.sweep_start(), 12_345 * MS);
    assert_eq!(app.spin_start(), 0);
    assert_eq!(
        app.frame(12_345 * MS),
        Stimulus::Beam { slices: render_sweep(0, 10, BEAM_WIDTH) }
    );
}

#[test]
fn switching_to_lighthouse_starts_it_at_angle_zero() {
    let mut app = running(Mode::Sweep, 0);
    app.select_mode(Mode::Lighthouse, 98_765 * MS + 1);
    assert_eq!(app.mode(), Mode::Lighthouse);
    assert_eq!(app.spin_start(), 98_765 * MS + 1);
    assert_eq!(app.sweep_start(), 0);
    match app.frame(98_765 * MS + 1) {
        Stimulus::Lighthouse { beacon } => assert_eq!(beacon.angle, 0),
        other => panic!("not a lighthouse: {:?}", other),
    }
}

#[test]
fn switching_to_flash_restarts_the_sweep_and_keeps_the_blink() {
    let mut app = running(Mode::Lighthouse, 0);
    assert!(app.tick(100 * MS));
    app.select_mode(Mode::Flash, 150 * MS);
    assert_eq!(app.mode(), Mode::Flash);
    assert_eq!(app.sweep_start(), 150 * MS);
    assert_eq!(app.spin_start(), 0);
    assert!(app.show_white());
    assert_eq!(app.last_toggle(), 100 * MS);
}

#[test]
fn switching_mode_leaves_the_rest_alone() {
    let mut app = running(Mode::Sweep, 0);
    app.set_frequency(12);
    app.select_mode(Mode::Lighthouse, 9);
    assert!(app.flashing());
    assert_eq!(app.frequency_hz(), 12);
    assert_eq!(app.sweep_speed(), 12);
    assert_eq!(app.interval(), 83_333_334);
    assert_eq!(app.beam_width_norm(), BEAM_WIDTH);
}

#[test]
fn frequency_sets_interval_and_sweep_speed() {
    let mut app = DreamApp::new(0);
    let intervals = [
        (8u64, 125_000_000u64),
        (9, 111_111_112),
        (10, 100_000_000),
        (11, 90_909_091),
        (12, 83_333_334),
        (13, 76_923_077),
    ];
    for (hz, interval) in intervals {
        app.set_frequency(hz);
        assert_eq!(app.frequency_hz(), hz);
        assert_eq!(app.sweep_speed(), hz);
        assert_eq!(app.interval(), interval);
    }
}

#[test]
fn frequency_leaves_the_rest_alone() {
    let mut app = running(Mode::Lighthouse, 5);
    assert!(app.tick(5 + 100 * MS));
    app.set_frequency(13);
    assert!(app.flashing());
    assert!(app.show_white());
    assert_eq!(app.last_toggle(), 5 + 100 * MS);
    assert_eq!(app.mode(), Mode::Lighthouse);
    assert_eq!(app.spin_start(), 5);
}

#[test]
fn menu_stars_the_current_choices() {
    let mut app = DreamApp::new(0);
    assert_eq!(app.mode_label(Mode::Flash), "Flash");
    assert_eq!(app.mode_label(Mode::Sweep), "Sweep *");
    assert_eq!(app.mode_label(Mode::Lighthouse), "Lighthouse");
    assert_eq!(app.frequency_label(9), "9 Hz");
    assert_eq!(app.frequency_label(10), "10 Hz *");
    assert_eq!(app.fullscreen_label(), "Fullscreen");
    app.select_mode(Mode::Flash, 0);
    app.set_frequency(9);
    app.handle(MenuEvent::ToggleFullscreen, 0);
    assert_eq!(app.mode_label(Mode::Flash), "Flash *");
    assert_eq!(app.mode_label(Mode::Sweep), "Sweep");
    assert_eq!(app.frequency_label(9), "9 Hz *");
    assert_eq!(app.frequency_label(10), "10 Hz");
    assert_eq!(app.fullscreen_label(), "Fullscreen *");
    app.select_mode(Mode::Lighthouse, 0);
    assert_eq!(app.mode_label(Mode::Lighthouse), "Lighthouse *");
    assert_eq!(app.mode_label(Mode::Flash), "Flash");
}

#[test]
fn every_caption_is_spelled_out() {
    assert_eq!(start_stop_label(false), "Start");
    assert_eq!(start_stop_label(true), "Stop");
    assert_eq!(fullscreen_label(false), "Fullscreen");
    assert_eq!(fullscreen_label(true), "Fullscreen *");
    for mode in all_modes() {
        assert_eq!(mode_label(mode, false), mode_name(mode));
        assert_eq!(mode_label(mode, true), format!("{} *", mode_name(mode)));
    }
    for hz in frequency_choices() {
        assert_eq!(frequency_label(hz, false), format!("{} Hz", hz));
        assert_eq!(frequency_label(hz, true), format!("{} Hz *", hz));
    }
}

#[test]
fn menu_hides_in_fullscreen_until_the_pointer_is_near() {
    let mut app = DreamApp::new(0);
    assert!(app.menu_visible(false));
    assert!(app.menu_visible(true));
    assert_eq!(app.handle(MenuEvent::ToggleFullscreen, 0), Effect::Nothing);
    assert!(app.fullscreen());
    assert!(!app.menu_visible(false));
    assert!(app.menu_visible(true));
    assert_eq!(app.handle(MenuEvent::ToggleFullscreen, 0), Effect::Nothing);
    assert!(!app.fullscreen());
    assert_eq!(MENU_REVEAL_HEIGHT, 60);
}

#[test]
fn quit_asks_before_it_closes() {
    let mut app = DreamApp::new(0);
    assert_eq!(app.handle(MenuEvent::Quit, 1), Effect::Nothing);
    assert!(app.confirm_quit());
    assert_eq!(app.handle(MenuEvent::CancelQuit, 2), Effect::Nothing);
    assert!(!app.confirm_quit());
    assert_eq!(app.handle(MenuEvent::Quit, 3), Effect::Nothing);
    assert_eq!(app.handle(MenuEvent::ConfirmQuit, 4), Effect::CloseWindow);
    assert!(app.confirm_quit());
}

#[test]
fn learn_more_opens_the_help_page() {
    let mut app = running(Mode::Sweep, 0);
    assert_eq!(app.handle(MenuEvent::LearnMore, 5), Effect::OpenHelp);
    assert!(app.flashing());
    assert_eq!(app.mode(), Mode::Sweep);
    assert_eq!(help_url(), "https://en.wikipedia.org/wiki/Dreamachine");
}

#[test]
fn events_do_what_the_menu_entries_do() {
    let mut by_event = DreamApp::new(0);
    let mut by_call = DreamApp::new(0);
    assert_eq!(by_event.handle(MenuEvent::StartStop, 10), Effect::Nothing);
    by_call.start_stop(10);
    assert_eq!(by_event.handle(MenuEvent::SelectMode(Mode::Lighthouse), 20), Effect::Nothing);
    by_call.select_mode(Mode::Lighthouse, 20);
    assert_eq!(by_event.handle(MenuEvent::SelectFrequency(11), 30), Effect::Nothing);
    by_call.set_frequency(11);
    assert_eq!(format!("{:?}", by_event), format!("{:?}", by_call));
    assert!(by_event.flashing());
    assert_eq!(by_event.last_toggle(), 10);
    assert_eq!(by_event.mode(), Mode::Lighthouse);
    assert_eq!(by_event.spin_start(), 20);
    assert_eq!(by_event.frequency_hz(), 11);
    assert_eq!(by_event.interval(), 90_909_091);
}

#[test]
fn update_advances_the_blink_and_paints() {
    let mut app = running(Mode::Flash, 0);
    assert_eq!(app.update(99 * MS), Stimulus::Fill { white: false });
    assert_eq!(app.update(100 * MS), Stimulus::Fill { white: true });
    assert_eq!(app.last_toggle(), 100 * MS);
    assert_eq!(app.update(150 * MS), Stimulus::Fill { white: true });
    assert_eq!(app.update(200 * MS), Stimulus::Fill { white: false });
    let mut sweeping = running(Mode::Sweep, 0);
    assert_eq!(
        sweeping.update(100 * MS),
        Stimulus::Beam { slices: render_sweep(100 * MS, 10, BEAM_WIDTH) }
    );
    assert!(sweeping.show_white());
}

#[test]
fn modes_are_listed_in_menu_order() {
    assert_eq!(all_modes(), vec![Mode::Flash, Mode::Sweep, Mode::Lighthouse]);
    assert_eq!(mode_name(Mode::Flash), "Flash");
    assert_eq!(mode_name(Mode::Sweep), "Sweep");
    assert_eq!(mode_name(Mode::Lighthouse), "Lighthouse");
}
