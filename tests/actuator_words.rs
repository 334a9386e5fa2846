use wfpi::springboard::{dac_shutdown_frame, dac_write_frame, wiper_accepts, Channel};

#[test]
fn dac_frames() {
    assert_eq!(dac_write_frame(Channel::CHA, 4095), [0x2F, 0xFF]);
    assert_eq!(dac_write_frame(Channel::CHB, 0x123), [0xA1, 0x23]);
    assert_eq!(dac_write_frame(Channel::CHA, 0xF000), [0x20, 0x00]);
    assert_eq!(dac_shutdown_frame(Channel::CHA), [0x30, 0xFF]);
    assert_eq!(dac_shutdown_frame(Channel::CHB), [0xB0, 0xFF]);
}

#[test]
fn wiper_range() {
    assert!(wiper_accepts(127));
    assert!(wiper_accepts(0));
    assert!(!wiper_accepts(128));
}
