//! The single-slot signal and the interrupt-source arming bridge.

use screen_cycle::input::InputSource;
use screen_cycle::notifier::Notifier;

#[test]
fn consume_on_empty_slot_returns_false() {
    let mut n = Notifier::new();
    assert!(!n.try_consume());
    assert!(!n.try_consume());
}

#[test]
fn one_post_one_consume() {
    let mut n = Notifier::new();
    n.post();
    assert!(n.try_consume());
    assert!(!n.try_consume());
}

#[test]
fn posts_saturate_to_one_signal() {
    let mut n = Notifier::new();
    n.post();
    n.post();
    n.post();
    assert!(n.try_consume());
    assert!(!n.try_consume());
    assert!(!n.try_consume());
}

#[test]
fn another_post_delivers_again() {
    let mut n = Notifier::new();
    n.post();
    assert!(n.try_consume());
    assert!(!n.try_consume());
    n.post();
    assert!(n.try_consume());
    assert!(!n.try_consume());
}

#[test]
fn disarmed_source_ignores_edges() {
    let mut src = InputSource::new();
    let mut n = Notifier::new();
    assert!(!src.armed());
    src.press(&mut n);
    assert!(!n.try_consume());
}

#[test]
fn armed_source_posts_once_and_disarms() {
    let mut src = InputSource::new();
    let mut n = Notifier::new();
    src.arm();
    assert!(src.armed());
    src.press(&mut n);
    assert!(!src.armed());
    src.press(&mut n);
    assert!(n.try_consume());
    assert!(!n.try_consume());
}

#[test]
fn rearming_catches_the_next_edge() {
    let mut src = InputSource::new();
    let mut n = Notifier::new();
    src.arm();
    src.press(&mut n);
    assert!(n.try_consume());
    src.arm();
    src.press(&mut n);
    assert!(n.try_consume());
}
