use wfpi::eeg::{
    frame_status, parse_payload, payload_checksum, FrameStatus, Mindwave, DEFAULT_TIMEOUT_MS,
};

fn frame_of(payload: &[u8], checksum: u8) -> Vec<u8> {
    let mut f = vec![0xAA, 0xAA, payload.len() as u8];
    f.extend_from_slice(payload);
    f.push(checksum);
    f
}

const READINGS: [u8; 6] = [0x02, 0x00, 0x04, 50, 0x05, 40];

#[test]
fn checksum_is_ones_complement_of_sum() {
    assert_eq!(payload_checksum(&READINGS), 154);
    assert_eq!(payload_checksum(&[0x80, 0x02, 0x00, 0x00]), 0x7D);
    assert_eq!(payload_checksum(&[]), 0xFF);
    assert_eq!(payload_checksum(&[200, 100]), 0xFF - 44);
}

#[test]
fn frame_status_cases() {
    assert_eq!(frame_status(&[]), FrameStatus::NeedMore);
    assert_eq!(frame_status(&[0x00]), FrameStatus::BadSync);
    assert_eq!(frame_status(&[0xAA, 0x01]), FrameStatus::BadSync);
    assert_eq!(frame_status(&[0xAA, 0xAA]), FrameStatus::NeedMore);
    assert_eq!(frame_status(&[0xAA, 0xAA, 170]), FrameStatus::Oversized);
    assert_eq!(frame_status(&[0xAA, 0xAA, 169]), FrameStatus::NeedMore);
    assert_eq!(frame_status(&[0xAA, 0xAA, 2, 4]), FrameStatus::NeedMore);
    assert_eq!(frame_status(&[0xAA, 0xAA, 2, 4, 30, 0]), FrameStatus::Complete);
}

#[test]
fn payload_tags_parsed() {
    let v = parse_payload(&READINGS);
    assert_eq!((v.poor_quality, v.attention, v.meditation, v.fresh), (0, 50, 40, true));
    let v = parse_payload(&[0x80, 0x02, 0x05, 0x04, 77]);
    assert_eq!((v.poor_quality, v.attention, v.meditation, v.fresh), (200, 77, 0, false));
    let v = parse_payload(&[0x99, 0x04, 12]);
    assert_eq!(v.attention, 12);
    let v = parse_payload(&[0x04]);
    assert_eq!((v.attention, v.fresh), (0, false));
    let mut big = vec![0x83];
    big.extend_from_slice(&[0x04; 24]);
    big.extend_from_slice(&[0x05, 9]);
    let v = parse_payload(&big);
    assert_eq!((v.attention, v.meditation), (0, 9));
}

#[test]
fn well_formed_frame_yields_tag_values() {
    let mut m = Mindwave::init(0);
    let f = frame_of(&READINGS, payload_checksum(&READINGS));
    m.update(&f, 100);
    assert!(m.has_new_data());
    assert_eq!(m.get_attention(), 50);
    assert_eq!(m.get_meditation(), 40);
    assert_eq!(m.get_poor_quality(), 0);
    assert_eq!(m.get_quality(), 200);
}

#[test]
fn flipped_payload_bit_is_rejected() {
    let mut m = Mindwave::init(0);
    m.update(&frame_of(&[0x02, 10, 0x04, 60], payload_checksum(&[0x02, 10, 0x04, 60])), 10);
    assert_eq!(m.get_attention(), 60);
    let checksum = payload_checksum(&READINGS);
    for j in 0..READINGS.len() {
        for k in 0..8 {
            let mut p = READINGS;
            p[j] ^= 1 << k;
            m.update(&frame_of(&p, checksum), 20);
            assert!(!m.has_new_data());
            assert_eq!(m.get_attention(), 60);
            assert_eq!(m.get_poor_quality(), 10);
            assert_eq!(m.get_meditation(), 0);
        }
    }
}

#[test]
fn bad_sync_and_oversized_frames_change_nothing() {
    let mut m = Mindwave::init(0);
    m.update(&frame_of(&READINGS, payload_checksum(&READINGS)), 1);
    m.update(&[0x00], 2);
    assert!(!m.has_new_data());
    assert_eq!(m.get_attention(), 50);
    m.update(&[0xAA, 0xAA, 200], 3);
    assert!(!m.has_new_data());
    assert_eq!(m.get_attention(), 50);
    m.update(&[0xAA, 0xAA, 6, 2, 0], 4);
    assert_eq!(m.get_attention(), 50);
}

#[test]
fn stale_readings_fall_back_to_defaults() {
    let p = [0x04, 30];
    let f = frame_of(&p, payload_checksum(&p));
    let mut m = Mindwave::init(0);
    m.update(&f, 3000);
    assert!(!m.has_new_data());
    assert_eq!((m.get_attention(), m.get_poor_quality()), (30, 200));
    m.update(&f, 6000);
    assert_eq!((m.get_attention(), m.get_meditation(), m.get_poor_quality()), (0, 0, 200));
    assert_eq!(m.get_quality(), 0);
    m.set_timeout(10_000);
    m.update(&f, 9000);
    assert_eq!(m.get_attention(), 30);
    assert_eq!(DEFAULT_TIMEOUT_MS, 5000);
}

#[test]
fn quality_past_worst_counts_as_none() {
    let p = [0x02, 250];
    let mut m = Mindwave::init(0);
    m.update(&frame_of(&p, payload_checksum(&p)), 1);
    assert!(m.has_new_data());
    assert_eq!(m.get_poor_quality(), 250);
    assert_eq!(m.get_quality(), 0);
}

#[test]
fn debug_flag_round_trips() {
    let mut m = Mindwave::init(0);
    assert!(!m.is_debugging());
    m.set_debug(true);
    assert!(m.is_debugging());
}

#[test]
fn longest_payload_accepted() {
    let mut p = vec![0x04, 99];
    p.resize(169, 0x00);
    let checksum = payload_checksum(&p);
    assert_eq!(checksum, 152);
    let f = frame_of(&p, checksum);
    assert_eq!(frame_status(&f), FrameStatus::Complete);
    let mut m = Mindwave::init(0);
    m.update(&f, 10);
    assert!(!m.has_new_data());
    assert_eq!(m.get_attention(), 99);
}

#[test]
fn empty_payload_carries_nothing() {
    let mut m = Mindwave::init(0);
    m.update(&frame_of(&READINGS, payload_checksum(&READINGS)), 10);
    m.update(&[0xAA, 0xAA, 0, 0xFF], 20);
    assert!(!m.has_new_data());
    assert_eq!((m.get_attention(), m.get_meditation(), m.get_poor_quality()), (0, 0, 200));
}
