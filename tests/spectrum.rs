use wfpi::sdft::{hann_neighbours, SpectrumCursor, DFT_LENGTH};

#[test]
fn valid_exactly_at_full_buffer() {
    let mut c = SpectrumCursor::new();
    assert!(!c.is_data_valid());
    for i in 1..DFT_LENGTH {
        assert!(!c.update());
        assert_eq!(c.index(), i);
    }
    assert!(c.update());
    assert!(c.is_data_valid());
    assert_eq!(c.index(), 0);
    for _ in 0..3 * DFT_LENGTH + 7 {
        assert!(c.update());
    }
    assert_eq!(c.index(), 7);
}

#[test]
fn neighbours_wrap() {
    assert_eq!(hann_neighbours(0), (511, 1));
    assert_eq!(hann_neighbours(511), (510, 0));
    assert_eq!(hann_neighbours(5), (4, 6));
}
