//! The per-screen advance policies and tick animations.

use screen_cycle::chart::ChartApp;
use screen_cycle::gauge::GaugeApp;
use screen_cycle::ratatui_logo::RatatuiLogoApp;
use screen_cycle::screen::SignalOutcome;
use screen_cycle::tabs::TabsApp;
use screen_cycle::voltage::VoltageApp;

#[test]
fn logo_exits_on_first_signal() {
    let mut app = RatatuiLogoApp::new();
    assert_eq!(app.on_signal(), SignalOutcome::Exit);
}

#[test]
fn tabs_step_forward_then_exit_from_last() {
    let mut app = TabsApp::new();
    assert_eq!(app.selected_tab(), 0);
    assert_eq!(app.on_signal(), SignalOutcome::Absorbed);
    assert_eq!(app.selected_tab(), 1);
    assert_eq!(app.on_signal(), SignalOutcome::Absorbed);
    assert_eq!(app.selected_tab(), 2);
    assert_eq!(app.on_signal(), SignalOutcome::Exit);
    assert_eq!(app.selected_tab(), 2);
    assert_eq!(app.on_signal(), SignalOutcome::Exit);
    assert_eq!(app.selected_tab(), 2);
}

#[test]
fn tabs_temperatures_drawn_once_in_range() {
    let app = TabsApp::new();
    assert_eq!(app.temperature_count(), 6);
    for i in 0..6 {
        let t = app.temperature(i);
        assert!((50..90).contains(&t));
    }
}

#[test]
fn tabs_temperatures_survive_tab_steps() {
    let mut app = TabsApp::new();
    let before: Vec<u8> = (0..app.temperature_count()).map(|i| app.temperature(i)).collect();
    app.on_signal();
    app.on_signal();
    let after: Vec<u8> = (0..app.temperature_count()).map(|i| app.temperature(i)).collect();
    assert_eq!(before, after);
}

#[test]
fn chart_popup_then_exit() {
    let mut app = ChartApp::new();
    assert!(!app.popup_visible());
    assert_eq!(app.on_signal(), SignalOutcome::Absorbed);
    assert!(app.popup_visible());
    assert_eq!(app.on_signal(), SignalOutcome::Exit);
    assert!(app.popup_visible());
}

#[test]
fn chart_initial_windows() {
    let app = ChartApp::new();
    assert_eq!(app.sample_count1(), 200);
    assert_eq!(app.sample_count2(), 200);
    assert_eq!(app.sample1(0), 0);
    assert_eq!(app.sample1(1), 2);
    assert_eq!(app.sample1(199), 398);
    assert_eq!(app.sample2(0), 0);
    assert_eq!(app.sample2(1), 1);
    assert_eq!(app.sample2(199), 199);
    assert_eq!(app.window_bounds(), (0, 200));
}

#[test]
fn chart_tick_slides_the_windows() {
    let mut app = ChartApp::new();
    app.on_tick();
    // lengths unchanged
    assert_eq!(app.sample_count1(), 200);
    assert_eq!(app.sample_count2(), 200);
    // the 5 oldest of the first window are gone, the survivors shifted down
    assert_eq!(app.sample1(0), 10);
    assert_eq!(app.sample1(194), 398);
    // 5 fresh samples appended, strictly increasing and beyond the removed
    assert_eq!(app.sample1(195), 400);
    assert_eq!(app.sample1(196), 402);
    assert_eq!(app.sample1(199), 408);
    // the 10 oldest of the second window are gone
    assert_eq!(app.sample2(0), 10);
    assert_eq!(app.sample2(189), 199);
    assert_eq!(app.sample2(190), 200);
    assert_eq!(app.sample2(199), 209);
    // the viewport slid forward by one unit
    assert_eq!(app.window_bounds(), (10, 210));
    // the popup sub-state is untouched
    assert!(!app.popup_visible());
}

#[test]
fn chart_two_ticks_keep_sliding() {
    let mut app = ChartApp::new();
    app.on_tick();
    app.on_tick();
    assert_eq!(app.sample_count1(), 200);
    assert_eq!(app.sample1(0), 20);
    assert_eq!(app.sample1(199), 418);
    assert_eq!(app.sample2(0), 20);
    assert_eq!(app.sample2(199), 219);
    assert_eq!(app.window_bounds(), (20, 220));
}

#[test]
fn gauge_starts_at_twenty_percent() {
    let app = GaugeApp::new();
    assert_eq!(app.levels(), (200, 200));
}

#[test]
fn gauge_progress_is_linear_until_the_ceiling() {
    let mut app = GaugeApp::new();
    for _ in 0..5 {
        app.on_tick();
    }
    // start + n * step, in tenths of a percent
    assert_eq!(app.levels(), (205, 205));
}

#[test]
fn gauge_clamps_at_one_hundred_percent() {
    let mut app = GaugeApp::new();
    for _ in 0..799 {
        app.on_tick();
    }
    assert_eq!(app.levels(), (999, 999));
    app.on_tick();
    assert_eq!(app.levels(), (1000, 1000));
    app.on_tick();
    app.on_tick();
    assert_eq!(app.levels(), (1000, 1000));
}

#[test]
fn gauge_exits_on_first_signal() {
    let mut app = GaugeApp::new();
    assert_eq!(app.on_signal(), SignalOutcome::Exit);
    assert_eq!(app.levels(), (200, 200));
}

#[test]
fn voltage_doubles_the_raw_reading() {
    let mut app = VoltageApp::new();
    assert_eq!(app.last_displayed(), None);
    assert!(app.on_reading(Some(1650)));
    assert_eq!(app.last_displayed(), Some(3300));
}

#[test]
fn voltage_failure_keeps_the_previous_frame() {
    let mut app = VoltageApp::new();
    assert!(app.on_reading(Some(1650)));
    assert!(!app.on_reading(None));
    assert_eq!(app.last_displayed(), Some(3300));
    // the loop keeps polling: a later read draws again
    assert!(app.on_reading(Some(1700)));
    assert_eq!(app.last_displayed(), Some(3400));
}

#[test]
fn voltage_exits_on_first_signal() {
    let mut app = VoltageApp::new();
    assert_eq!(app.on_signal(), SignalOutcome::Exit);
}
