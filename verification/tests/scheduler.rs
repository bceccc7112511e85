use led_sequencer::mode::Mode;
use led_sequencer::sequencer::{Response, Rgb, Sequencer};

const RED: Rgb = Rgb { red: true, green: false, blue: false };
const YELLOW: Rgb = Rgb { red: true, green: true, blue: false };
const GREEN: Rgb = Rgb { red: false, green: true, blue: false };
const BLUE: Rgb = Rgb { red: false, green: false, blue: true };
const PURPLE: Rgb = Rgb { red: true, green: false, blue: true };

#[test]
fn startup_plays_the_cycle_sequence_from_red() {
    let s = Sequencer::new();
    assert_eq!(s.current_color(), RED);
}

#[test]
fn red_selected_applies_once_then_stays_quiet_for_its_duration() {
    let mut s = Sequencer::new();
    let r = s.on_tick(Some(Mode::Red));
    assert_eq!(r, Response { set: Some(RED), subscribe: false });
    // 1000 ms in 10 ms ticks: 99 quiet polls, then the wrap re-enters
    // the single step.
    for tick in 1..100 {
        let r = s.on_tick(None);
        assert_eq!(r, Response { set: None, subscribe: false }, "tick {tick}");
    }
    let r = s.on_tick(None);
    assert_eq!(r, Response { set: Some(RED), subscribe: false });
}

#[test]
fn a_mode_mid_step_preempts_within_the_same_poll() {
    let mut s = Sequencer::new();
    let r = s.on_tick(Some(Mode::Yellow));
    assert_eq!(r.set, Some(YELLOW));
    // 400 ms into the 3000 ms yellow step, blue arrives.
    for _ in 0..40 {
        assert_eq!(s.on_tick(None).set, None);
    }
    let r = s.on_tick(Some(Mode::Blue));
    assert_eq!(r, Response { set: Some(BLUE), subscribe: false });
    // The abandoned yellow step emits nothing further: the next output
    // is blue again, a full blue duration later.
    for tick in 1..300 {
        let r = s.on_tick(None);
        assert_eq!(r, Response { set: None, subscribe: false }, "tick {tick}");
    }
    assert_eq!(s.on_tick(None).set, Some(BLUE));
}

#[test]
fn every_selectable_mode_starts_with_its_first_output() {
    let cases = [
        (Mode::Cycle, RED),
        (Mode::Red, RED),
        (Mode::Yellow, YELLOW),
        (Mode::Green, GREEN),
        (Mode::Blue, BLUE),
        (Mode::Purple, PURPLE),
    ];
    for (mode, color) in cases {
        let mut s = Sequencer::new();
        for _ in 0..7 {
            s.on_tick(None);
        }
        let r = s.on_tick(Some(mode));
        assert_eq!(r, Response { set: Some(color), subscribe: false });
    }
}

#[test]
fn the_cycle_replays_its_four_steps_in_fixed_order() {
    let mut s = Sequencer::new();
    assert_eq!(s.current_color(), RED);
    let boundaries = [(300, YELLOW), (400, GREEN), (700, YELLOW), (800, RED)];
    // Two full rounds: the order repeats indefinitely.
    for round in 0..2 {
        let mut next = 0;
        for tick in 1..=800 {
            let r = s.on_tick(None);
            assert!(!r.subscribe);
            if tick == boundaries[next].0 {
                assert_eq!(r.set, Some(boundaries[next].1), "round {round}, tick {tick}");
                next += 1;
            } else {
                assert_eq!(r.set, None, "round {round}, tick {tick}");
            }
        }
        assert_eq!(next, 4);
    }
}

#[test]
fn connected_subscribes_once_and_leaves_the_step_untouched() {
    let mut s = Sequencer::new();
    // 110 ms into the first 3000 ms cycle step.
    for _ in 0..10 {
        assert_eq!(s.on_tick(None), Response { set: None, subscribe: false });
    }
    let r = s.on_tick(Some(Mode::Connected));
    assert_eq!(r, Response { set: None, subscribe: true });
    // The step boundary still falls exactly at tick 300.
    for tick in 12..300 {
        let r = s.on_tick(None);
        assert_eq!(r, Response { set: None, subscribe: false }, "tick {tick}");
    }
    assert_eq!(s.on_tick(None), Response { set: Some(YELLOW), subscribe: false });
}

#[test]
fn connected_on_a_boundary_subscribes_and_still_enters_the_next_step() {
    let mut s = Sequencer::new();
    assert_eq!(s.on_tick(Some(Mode::Green)).set, Some(GREEN));
    for _ in 1..100 {
        assert_eq!(s.on_tick(None).set, None);
    }
    // The poll that completes the 1000 ms wait also sees the signal.
    let r = s.on_tick(Some(Mode::Connected));
    assert_eq!(r, Response { set: Some(GREEN), subscribe: true });
}
