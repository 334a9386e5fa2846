use wfpi::window::SampleWindow;

#[test]
fn window_evicts_oldest() {
    let mut w: SampleWindow<i64> = SampleWindow::new(16);
    assert!(w.is_empty());
    assert_eq!(w.newest(), None);
    assert_eq!(w.oldest(), None);
    for x in 1..=16 {
        assert_eq!(w.insert(x), None);
    }
    assert_eq!(w.insert(17), Some(1));
    assert_eq!(w.len(), 16);
    assert_eq!(w.oldest(), Some(2));
    assert_eq!(w.newest(), Some(17));
}

#[test]
fn warmup_is_first_eighth() {
    let mut w: SampleWindow<i64> = SampleWindow::new(16);
    assert!(w.in_warmup());
    w.insert(3);
    assert!(w.in_warmup());
    w.insert(3);
    assert!(!w.in_warmup());
}

#[test]
fn zero_capacity_keeps_nothing() {
    let mut w: SampleWindow<u8> = SampleWindow::new(0);
    assert_eq!(w.insert(5), Some(5));
    assert!(w.is_empty());
    assert!(!w.in_warmup());
}

#[test]
fn smoothed_output_follows_warmup() {
    let mut w: SampleWindow<i64> = SampleWindow::new(16);
    w.insert(9);
    assert_eq!(w.smoothed(9, 4), 9);
    w.insert(1);
    assert_eq!(w.smoothed(1, 5), 5);
}
