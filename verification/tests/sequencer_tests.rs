//! The full rotation, driven through the notifier and the armed source.

use screen_cycle::input::InputSource;
use screen_cycle::notifier::Notifier;
use screen_cycle::sequencer::ActiveScreen;
use screen_cycle::sequencer::Sequencer;

#[test]
fn starts_at_the_logo() {
    let seq = Sequencer::new();
    assert_eq!(seq.current_index(), 0);
    assert!(matches!(seq.current(), ActiveScreen::Logo(_)));
}

#[test]
fn poll_without_a_signal_changes_nothing() {
    let mut src = InputSource::new();
    let mut n = Notifier::new();
    src.arm();
    let mut seq = Sequencer::new();
    assert!(!seq.poll(&mut n, &mut src));
    assert_eq!(seq.current_index(), 0);
}

#[test]
fn full_cycle_of_presses() {
    let mut src = InputSource::new();
    let mut n = Notifier::new();
    src.arm();
    let mut seq = Sequencer::new();

    // one press at the logo advances to the tabs
    src.press(&mut n);
    assert!(seq.poll(&mut n, &mut src));
    assert_eq!(seq.current_index(), 1);
    match seq.current() {
        ActiveScreen::Tabs(t) => assert_eq!(t.selected_tab(), 0),
        _ => panic!("expected the tabbed screen"),
    }

    // two presses step the tabs, the third press exits to the chart
    src.press(&mut n);
    assert!(!seq.poll(&mut n, &mut src));
    match seq.current() {
        ActiveScreen::Tabs(t) => assert_eq!(t.selected_tab(), 1),
        _ => panic!("expected the tabbed screen"),
    }
    src.press(&mut n);
    assert!(!seq.poll(&mut n, &mut src));
    match seq.current() {
        ActiveScreen::Tabs(t) => assert_eq!(t.selected_tab(), 2),
        _ => panic!("expected the tabbed screen"),
    }
    src.press(&mut n);
    assert!(seq.poll(&mut n, &mut src));
    assert_eq!(seq.current_index(), 2);
    match seq.current() {
        ActiveScreen::Chart(c) => assert!(!c.popup_visible()),
        _ => panic!("expected the chart screen"),
    }

    // first press at the chart shows the popup, the second exits
    src.press(&mut n);
    assert!(!seq.poll(&mut n, &mut src));
    match seq.current() {
        ActiveScreen::Chart(c) => assert!(c.popup_visible()),
        _ => panic!("expected the chart screen"),
    }
    src.press(&mut n);
    assert!(seq.poll(&mut n, &mut src));
    assert_eq!(seq.current_index(), 3);
    assert!(matches!(seq.current(), ActiveScreen::Gauge(_)));

    // one press each at the gauges and the voltage readout
    src.press(&mut n);
    assert!(seq.poll(&mut n, &mut src));
    assert_eq!(seq.current_index(), 4);
    assert!(matches!(seq.current(), ActiveScreen::Voltage(_)));
    src.press(&mut n);
    assert!(seq.poll(&mut n, &mut src));
    assert_eq!(seq.current_index(), 0);
    assert!(matches!(seq.current(), ActiveScreen::Logo(_)));

    // the source is armed again for the fresh screen's entry
    assert!(src.armed());
}

#[test]
fn absorbed_edges_rearm_the_source() {
    let mut src = InputSource::new();
    let mut n = Notifier::new();
    src.arm();
    let mut seq = Sequencer::new();
    src.press(&mut n);
    seq.poll(&mut n, &mut src);  // to tabs
    src.press(&mut n);
    assert!(!src.armed());  // delivery disarmed the source
    seq.poll(&mut n, &mut src);  // absorbed into a tab step
    assert!(src.armed());  // and the poll re-armed it
}

#[test]
fn ticks_advance_the_active_screen_only() {
    let mut src = InputSource::new();
    let mut n = Notifier::new();
    src.arm();
    let mut seq = Sequencer::new();
    // reach the gauges
    for _ in 0..6 {
        src.press(&mut n);
        seq.poll(&mut n, &mut src);
    }
    assert_eq!(seq.current_index(), 3);
    seq.on_tick();
    seq.on_tick();
    match seq.current() {
        ActiveScreen::Gauge(g) => assert_eq!(g.levels(), (202, 202)),
        _ => panic!("expected the gauge screen"),
    }
    assert_eq!(seq.current_index(), 3);
}

#[test]
fn voltage_readings_flow_through_the_sequencer() {
    let mut src = InputSource::new();
    let mut n = Notifier::new();
    src.arm();
    let mut seq = Sequencer::new();
    // reach the voltage readout
    for _ in 0..7 {
        src.press(&mut n);
        seq.poll(&mut n, &mut src);
    }
    assert_eq!(seq.current_index(), 4);
    assert!(seq.on_reading(Some(1800)));
    assert!(!seq.on_reading(None));
    match seq.current() {
        ActiveScreen::Voltage(v) => assert_eq!(v.last_displayed(), Some(3600)),
        _ => panic!("expected the voltage screen"),
    }
}

#[test]
fn a_pending_edge_does_not_leak_across_screens() {
    let mut src = InputSource::new();
    let mut n = Notifier::new();
    src.arm();
    let mut seq = Sequencer::new();
    src.press(&mut n);
    // a second physical edge while the first is undelivered: the source
    // is disarmed, so the slot still holds exactly one signal
    src.press(&mut n);
    assert!(seq.poll(&mut n, &mut src));
    assert_eq!(seq.current_index(), 1);
    // no stale edge advances the fresh screen
    assert!(!seq.poll(&mut n, &mut src));
    assert_eq!(seq.current_index(), 1);
}
