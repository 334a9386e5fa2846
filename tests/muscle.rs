use wfpi::myo::{adc_command, decode_adc_reply, MyoParser, MyoReader, Side};

#[test]
fn command_bytes() {
    assert_eq!(adc_command(0, false), [0xC0, 0, 0]);
    assert_eq!(adc_command(1, false), [0xC8, 0, 0]);
    assert_eq!(adc_command(9, true), [0x88, 0, 0]);
    assert_eq!(Side::Right.channel(), 1);
}

#[test]
fn reply_decoding() {
    assert_eq!(decode_adc_reply([0x01, 0xFF, 0x80]), 1023);
    assert_eq!(decode_adc_reply([0xFE, 0x12, 0x7F]), 36);
    assert_eq!(decode_adc_reply([0x00, 0x10, 0x80]), 33);
}

#[test]
fn reader_flags_changes() {
    let mut r = MyoReader::init();
    r.update([0, 0x10, 0x80], [0, 0, 0]);
    assert!(r.has_new_data());
    assert_eq!(r.get_value(Side::Left), 33);
    assert_eq!(r.get_value(Side::Right), 0);
    r.update([0, 0x10, 0x80], [0, 0, 0]);
    assert!(!r.has_new_data());
    r.update_channel(Side::Right, [1, 0, 0]);
    assert!(r.has_new_data());
    assert_eq!(r.get_value(Side::Right), 512);
    assert_eq!(r.get_value(Side::Analog), 0);
}

#[test]
fn parser_runs_detectors() {
    let mut p = MyoParser::new();
    assert!(p.update([0, 0x10, 0x80], [0, 0, 0]));
    assert_eq!(p.raw_value(Side::Left), 33);
    p.process(3, 0);
    assert_eq!(p.get_value(Side::Left), (false, 3));
    assert_eq!(p.get_value(Side::Right), (false, 0));
    p.process(0, 0);
    assert_eq!(p.get_value(Side::Left), (true, 0));
    assert_eq!(p.get_value(Side::Analog), (false, 0));
    assert!(!p.update([0, 0x10, 0x80], [0, 0, 0]));
}
