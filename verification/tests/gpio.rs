use garage_beam::gpio::{
    chip_with_label, level_to_fact, value_to_level, BeamDebouncer, EdgeDecision, Level,
    BEAM_ACTIVE_LOW, REFRACTORY,
};
use garage_beam::time::MILLISECOND;

const T0: u128 = 1_000_000_000_000;

fn at(base: u128, ms: u128) -> u128 {
    base + ms * MILLISECOND
}

#[test]
fn clean_transition_accepts_then_suppresses() {
    let mut debouncer = BeamDebouncer::new(REFRACTORY);
    let t0 = T0;
    assert_eq!(debouncer.on_edge(t0), EdgeDecision::Accept);
    assert_eq!(debouncer.on_edge(at(t0, 1)), EdgeDecision::Suppress);
}

#[test]
fn chatter_within_window_yields_one_accept() {
    let mut debouncer = BeamDebouncer::new(REFRACTORY);
    let t0 = T0;
    assert_eq!(debouncer.on_edge(t0), EdgeDecision::Accept);
    for ms in [1, 5, 10, 19] {
        assert_eq!(debouncer.on_edge(at(t0, ms)), EdgeDecision::Suppress);
    }
}

#[test]
fn window_elapses_then_edge_accepts_again() {
    let mut debouncer = BeamDebouncer::new(REFRACTORY);
    let t0 = T0;
    assert_eq!(debouncer.on_edge(t0), EdgeDecision::Accept);
    assert_eq!(debouncer.remaining(at(t0, 20)), None);
    assert!(debouncer.window_expired(at(t0, 20)));
    assert_eq!(debouncer.on_edge(at(t0, 20)), EdgeDecision::Accept);
}

#[test]
fn remaining_counts_down_within_window() {
    let mut debouncer = BeamDebouncer::new(REFRACTORY);
    let t0 = T0;
    assert_eq!(debouncer.remaining(t0), None);
    debouncer.on_edge(t0);
    assert_eq!(debouncer.remaining(at(t0, 5)), Some(15 * MILLISECOND));
    assert_eq!(debouncer.remaining(at(t0, 19)), Some(MILLISECOND));
    assert_eq!(debouncer.remaining(at(t0, 20)), None);
}

#[test]
fn refractory_resample_semantics() {
    let mut debouncer = BeamDebouncer::new(REFRACTORY);
    let t0 = T0;
    debouncer.on_edge(t0);
    assert!(!debouncer.window_expired(at(t0, 19)));
    assert!(debouncer.window_expired(at(t0, 20)));

    // After expiry a changed sample is adopted, an unchanged one is a no-op.
    let latched = level_to_fact(Level::Low, BEAM_ACTIVE_LOW);
    let changed = level_to_fact(Level::High, BEAM_ACTIVE_LOW);
    assert_ne!(changed, latched);
    assert_eq!(level_to_fact(Level::Low, BEAM_ACTIVE_LOW), latched);
}

#[test]
fn level_to_fact_both_polarities() {
    assert!(level_to_fact(Level::Low, true));
    assert!(!level_to_fact(Level::High, true));
    assert!(!level_to_fact(Level::Low, false));
    assert!(level_to_fact(Level::High, false));
}

#[test]
fn accepted_edges_keep_a_window_between_them() {
    let mut debouncer = BeamDebouncer::new(REFRACTORY);
    let mut accepted = vec![];
    for ms in 0..100 {
        if debouncer.on_edge(at(T0, ms)) == EdgeDecision::Accept {
            accepted.push(ms);
        }
    }
    assert_eq!(accepted, vec![0, 20, 40, 60, 80]);
}

#[test]
fn an_edge_stamped_before_the_anchor_is_suppressed() {
    let mut debouncer = BeamDebouncer::new(REFRACTORY);
    debouncer.on_edge(T0);
    assert_eq!(debouncer.on_edge(T0 - 1), EdgeDecision::Suppress);
    assert_eq!(debouncer.remaining(T0 - 1), Some(REFRACTORY));
}

#[test]
fn without_an_edge_no_window_expires() {
    let debouncer = BeamDebouncer::new(REFRACTORY);
    assert!(!debouncer.window_expired(T0));
}

#[test]
fn an_empty_window_accepts_every_edge() {
    let mut debouncer = BeamDebouncer::new(0);
    assert_eq!(debouncer.on_edge(T0), EdgeDecision::Accept);
    assert_eq!(debouncer.on_edge(T0), EdgeDecision::Accept);
    assert_eq!(debouncer.remaining(T0), None);
}

#[test]
fn active_lines_read_high() {
    assert_eq!(value_to_level(true), Level::High);
    assert_eq!(value_to_level(false), Level::Low);
}

#[test]
fn the_first_chip_with_the_label_is_picked() {
    let labels = vec![
        None,
        Some("other".to_string()),
        Some("pinctrl-bcm2835".to_string()),
        Some("pinctrl-bcm2835".to_string()),
    ];
    assert_eq!(chip_with_label(&labels, "pinctrl-bcm2835"), Some(2));
    assert_eq!(chip_with_label(&labels, "other"), Some(1));
    assert_eq!(chip_with_label(&labels, "pinctrl"), None);
    assert_eq!(chip_with_label(&[], "other"), None);
}
