use wfpi::flappy::Flappy;

#[test]
fn envelope_is_square() {
    let f = Flappy::new();
    assert_eq!(f.get_envelope(-3), 9);
    assert_eq!(f.get_envelope(0), 0);
    assert_eq!(f.get_envelope(i32::MIN), 1u64 << 62);
}

#[test]
fn one_detection_after_quiet_period() {
    let mut f = Flappy::new();
    assert!(!f.get_emg_count(5));
    let mut hits = vec![];
    for i in 0..400 {
        if f.get_emg_count(0) {
            hits.push(i);
        }
    }
    assert_eq!(hits, vec![201]);
}

#[test]
fn new_episode_needs_new_activity() {
    let mut f = Flappy::new();
    f.get_emg_count(7);
    for _ in 0..202 {
        f.get_emg_count(0);
    }
    assert!(!f.get_emg_count(3));
    let mut hits = 0;
    for _ in 0..202 {
        if f.get_emg_count(0) {
            hits += 1;
        }
    }
    assert_eq!(hits, 1);
}

#[test]
fn activity_postpones_detection() {
    let mut f = Flappy::new();
    f.get_emg_count(4);
    for _ in 0..150 {
        assert!(!f.get_emg_count(0));
    }
    assert!(!f.get_emg_count(4));
    for _ in 0..201 {
        assert!(!f.get_emg_count(0));
    }
    assert!(f.get_emg_count(0));
}

#[test]
fn update_reports_emitting_state() {
    let mut f = Flappy::new();
    assert!(!f.update(3));
    assert!(f.update(0));
    for _ in 0..201 {
        assert!(f.update(0));
    }
    assert!(!f.update(0));
}

#[test]
fn saturated_integral_still_counts_activity() {
    let mut f = Flappy::new();
    assert!(!f.get_emg_count(u64::MAX));
    for _ in 0..300 {
        assert!(!f.get_emg_count(1));
    }
    let mut hits = vec![];
    for i in 0..300 {
        if f.get_emg_count(0) {
            hits.push(i);
        }
    }
    assert_eq!(hits, vec![201]);
}

#[test]
fn strong_contraction_keeps_emitting() {
    let mut f = Flappy::new();
    assert!(!f.update(i32::MIN));
    for _ in 0..400 {
        assert!(f.update(i32::MIN));
    }
}
