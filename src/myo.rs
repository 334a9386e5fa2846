//! Muscle-sensor acquisition through an MCP3008-style 10-bit ADC.
//!
//! The caller performs each SPI transfer: it sends [`adc_command`] and hands
//! the three reply bytes to [`MyoReader::update`]. [`MyoParser`] then runs one
//! contraction detector per side on the filtered samples.
use vstd::prelude::*;
use crate::flappy::{Flappy, FlappyView, count_step, gated_envelope, idle_detector};

verus! {

/// ADC channel of each electrode.
#[derive(Clone, Copy, Debug, PartialEq, Eq, Structural)]
pub enum Side {
    Left,
    Right,
    Analog,
}

impl Side {
    pub open spec fn spec_channel(self) -> u8 {
        match self {
            Side::Left => 0,
            Side::Right => 1,
            Side::Analog => 2,
        }
    }

    /// The ADC channel number.
    pub fn channel(self) -> (r: u8)
        ensures
            r == self.spec_channel(),
    {
        match self {
            Side::Left => 0,
            Side::Right => 1,
            Side::Analog => 2,
        }
    }
}

/// First byte of a conversion request: start bit, single-ended or
/// differential mode, and the channel in bits 5 to 3.
pub open spec fn command_byte(channel: u8, differential: bool) -> u8 {
    (128 + (if differential {
        0int
    } else {
        64int
    }) + (channel % 8) * 8) as u8
}

/// The 10-bit sample in a conversion reply: bit 0 of the first byte, all of the
/// second, and bit 7 of the third.
pub open spec fn adc_word(rx: Seq<u8>) -> u16 {
    ((rx[0] % 2) * 512 + rx[1] * 2 + rx[2] / 128) as u16
}

/// The bytes to send for one conversion on `channel`.
pub fn adc_command(channel: u8, differential: bool) -> (r: [u8; 3])
    ensures
        r@ == seq![command_byte(channel, differential), 0u8, 0u8],
{
    let sgldiff: u8 = if differential {
        0
    } else {
        1
    };
    let c = channel & 0x7;
    let command: u8 = (0x01u8 << 7u8) | (sgldiff << 6u8) | (c << 3u8);
    assert(command == 128 + sgldiff * 64 + (channel % 8) * 8) by (bit_vector)
        requires
            sgldiff <= 1,
            c == channel & 0x7,
            command == (0x01u8 << 7u8) | (sgldiff << 6u8) | (c << 3u8),
    ;
    let r = [command, 0u8, 0u8];
    assert(r@ =~= seq![command_byte(channel, differential), 0u8, 0u8]);
    r
}

/// The sample in the reply to one conversion request.
pub fn decode_adc_reply(rx: [u8; 3]) -> (r: u16)
    ensures
        r == adc_word(rx@),
        r < 1024,
{
    let b0 = rx[0];
    let b1 = rx[1];
    let b2 = rx[2];
    let mut result: u16 = (b0 as u16 & 0x01) << 9u16;
    result = result | ((b1 as u16 & 0xFF) << 1u16);
    result = result | ((b2 as u16 & 0x80) >> 7u16);
    result = result & 0x3FF;
    assert(result == (b0 % 2) * 512 + b1 * 2 + b2 / 128 && result < 1024) by (bit_vector)
        requires
            result == ((((b0 as u16 & 0x01) << 9u16) | ((b1 as u16 & 0xFF) << 1u16)) | ((
            b2 as u16 & 0x80) >> 7u16)) & 0x3FF,
    ;
    result
}

/// What a [`MyoReader`] holds, as plain values.
pub struct MyoReaderView {
    pub new_data: bool,
    pub left: u16,
    pub right: u16,
    pub analog: u16,
}

/// The latest sample of each channel.
pub struct MyoReader {
    new_data: bool,
    left: u16,
    right: u16,
    analog: u16,
}

pub open spec fn reader_value(v: MyoReaderView, side: Side) -> u16 {
    match side {
        Side::Left => v.left,
        Side::Right => v.right,
        Side::Analog => v.analog,
    }
}

/// The reader after recording `value` for `side`: a changed value raises the
/// new-data flag.
pub open spec fn record_value(v: MyoReaderView, side: Side, value: u16) -> MyoReaderView {
    if reader_value(v, side) == value {
        v
    } else {
        match side {
            Side::Left => MyoReaderView { new_data: true, left: value, ..v },
            Side::Right => MyoReaderView { new_data: true, right: value, ..v },
            Side::Analog => MyoReaderView { new_data: true, analog: value, ..v },
        }
    }
}

impl View for MyoReader {
    type V = MyoReaderView;

    closed spec fn view(&self) -> MyoReaderView {
        MyoReaderView {
            new_data: self.new_data,
            left: self.left,
            right: self.right,
            analog: self.analog,
        }
    }
}

impl MyoReader {
    /// A reader with every channel at 0.
    pub fn init() -> (r: MyoReader)
        ensures
            r@ == (MyoReaderView { new_data: false, left: 0, right: 0, analog: 0 }),
    {
        MyoReader { new_data: false, left: 0, right: 0, analog: 0 }
    }

    /// Records the reply to a conversion on `side`'s channel.
    pub fn update_channel(&mut self, side: Side, rx: [u8; 3])
        ensures
            final(self)@ == record_value(old(self)@, side, adc_word(rx@)),
    {
        let value = decode_adc_reply(rx);
        match side {
            Side::Left => {
                if self.left != value {
                    self.new_data = true;
                    self.left = value;
                }
            },
            Side::Right => {
                if self.right != value {
                    self.new_data = true;
                    self.right = value;
                }
            },
            Side::Analog => {
                if self.analog != value {
                    self.new_data = true;
                    self.analog = value;
                }
            },
        }
    }

    /// Takes the replies for the left and the right channel of one round;
    /// the new-data flag then says whether either value changed.
    pub fn update(&mut self, left_rx: [u8; 3], right_rx: [u8; 3])
        ensures
            final(self)@ == record_value(
                record_value(
                    MyoReaderView { new_data: false, ..old(self)@ },
                    Side::Left,
                    adc_word(left_rx@),
                ),
                Side::Right,
                adc_word(right_rx@),
            ),
    {
        self.new_data = false;
        self.update_channel(Side::Left, left_rx);
        self.update_channel(Side::Right, right_rx);
    }

    pub fn has_new_data(&self) -> (r: bool)
        ensures
            r == self@.new_data,
    {
        self.new_data
    }

    pub fn get_value(&self, side: Side) -> (r: u16)
        ensures
            r == reader_value(self@, side),
    {
        match side {
            Side::Left => self.left,
            Side::Right => self.right,
            Side::Analog => self.analog,
        }
    }
}

/// What a [`MyoParser`] holds, as plain values.
pub struct MyoParserView {
    pub reader: MyoReaderView,
    pub left_emg: FlappyView,
    pub right_emg: FlappyView,
    pub left_val: i32,
    pub left_state: bool,
    pub right_val: i32,
    pub right_state: bool,
}

/// Both muscle channels: the ADC reader and one contraction detector per side.
pub struct MyoParser {
    reader: MyoReader,
    left_emg: Flappy,
    right_emg: Flappy,
    left_val: i32,
    left_state: bool,
    right_val: i32,
    right_state: bool,
}

impl View for MyoParser {
    type V = MyoParserView;

    closed spec fn view(&self) -> MyoParserView {
        MyoParserView {
            reader: self.reader@,
            left_emg: self.left_emg@,
            right_emg: self.right_emg@,
            left_val: self.left_val,
            left_state: self.left_state,
            right_val: self.right_val,
            right_state: self.right_state,
        }
    }
}

/// A detector's state after one [`Flappy::update`] on `filtered`, and what the
/// update returned.
pub open spec fn detector_tick(f: FlappyView, filtered: i32) -> (FlappyView, bool) {
    let emitted = if f.start_emitting {
        FlappyView {
            emit_number: vstd::wrapping::u32_specs::wrapping_add(f.emit_number, 1),
            ..f
        }
    } else {
        f
    };
    (count_step(emitted, gated_envelope(f.threshold, filtered)).0, f.start_emitting)
}

impl MyoParser {
    pub fn new() -> (r: MyoParser)
        ensures
            r@.reader == (MyoReaderView { new_data: false, left: 0, right: 0, analog: 0 }),
            r@.left_emg == idle_detector(),
            r@.right_emg == idle_detector(),
            r@.left_val == 0 && !r@.left_state,
            r@.right_val == 0 && !r@.right_state,
    {
        MyoParser {
            reader: MyoReader::init(),
            left_emg: Flappy::new(),
            right_emg: Flappy::new(),
            left_val: 0,
            left_state: false,
            right_val: 0,
            right_state: false,
        }
    }

    /// Takes the ADC replies of one round. Returns whether either sample
    /// changed; when it did, the caller filters both samples (see
    /// [`MyoParser::raw_value`]) and hands them to [`MyoParser::process`].
    pub fn update(&mut self, left_rx: [u8; 3], right_rx: [u8; 3]) -> (r: bool)
        ensures
            final(self)@ == (MyoParserView {
                reader: record_value(
                    record_value(
                        MyoReaderView { new_data: false, ..old(self)@.reader },
                        Side::Left,
                        adc_word(left_rx@),
                    ),
                    Side::Right,
                    adc_word(right_rx@),
                ),
                ..old(self)@
            }),
            r == final(self)@.reader.new_data,
    {
        self.reader.update(left_rx, right_rx);
        self.reader.has_new_data()
    }

    /// The latest unfiltered sample of a side.
    pub fn raw_value(&self, side: Side) -> (r: u16)
        ensures
            r == reader_value(self@.reader, side),
    {
        self.reader.get_value(side)
    }

    /// Runs each side's contraction detector on its filtered sample and keeps
    /// the sample with the detector's answer.
    pub fn process(&mut self, left_filtered: i32, right_filtered: i32)
        ensures
            final(self)@ == (MyoParserView {
                left_emg: detector_tick(old(self)@.left_emg, left_filtered).0,
                left_state: detector_tick(old(self)@.left_emg, left_filtered).1,
                left_val: left_filtered,
                right_emg: detector_tick(old(self)@.right_emg, right_filtered).0,
                right_state: detector_tick(old(self)@.right_emg, right_filtered).1,
                right_val: right_filtered,
                ..old(self)@
            }),
    {
        let ls = self.left_emg.update(left_filtered);
        let rs = self.right_emg.update(right_filtered);
        self.left_val = left_filtered;
        self.left_state = ls;
        self.right_val = right_filtered;
        self.right_state = rs;
    }

    /// The detector answer and the filtered sample of a side; the analog
    /// channel carries none.
    pub fn get_value(&self, side: Side) -> (r: (bool, i32))
        ensures
            r == (match side {
                Side::Left => (self@.left_state, self@.left_val),
                Side::Right => (self@.right_state, self@.right_val),
                Side::Analog => (false, 0i32),
            }),
    {
        match side {
            Side::Left => (self.left_state, self.left_val),
            Side::Right => (self.right_state, self.right_val),
            Side::Analog => (false, 0),
        }
    }
}

} // verus!
