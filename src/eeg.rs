//! Parser for the framed serial protocol of a NeuroSky-style EEG headset.
//!
//! A frame is `[0xAA, 0xAA, len, payload (len bytes), checksum]`. The caller
//! reads bytes from the serial line until [`frame_status`] says the frame is
//! settled, then hands the bytes to [`Mindwave::update`].
use vstd::prelude::*;

verus! {

/// Each frame starts with two of these.
pub const SYNC_BYTE: u8 = 0xAA;

/// The longest payload the protocol allows.
pub const MAX_PAYLOAD_LENGTH: u8 = 169;

/// The raw "poor quality" value that means no usable signal.
pub const WORST_POOR_QUALITY: u8 = 200;

/// Default staleness timeout, in milliseconds.
pub const DEFAULT_TIMEOUT_MS: u64 = 5000;

/// Where a partly read frame stands.
#[derive(Clone, Copy, Debug, PartialEq, Eq, Structural)]
pub enum FrameStatus {
    /// More bytes are needed to settle the frame.
    NeedMore,
    /// A sync position holds a byte other than `0xAA`: the attempt is dropped.
    BadSync,
    /// The length byte exceeds [`MAX_PAYLOAD_LENGTH`]: the frame is dropped.
    Oversized,
    /// Sync bytes, length, payload and checksum byte are all present.
    Complete,
}

/// Values carried by one payload.
#[derive(Clone, Copy, Debug, PartialEq, Eq, Structural)]
pub struct PayloadValues {
    pub poor_quality: u8,
    pub attention: u8,
    pub meditation: u8,
    /// Whether a quality tag (0x02) appeared, which marks the data as fresh.
    pub fresh: bool,
}

/// Sum of the bytes, as an unbounded integer.
pub open spec fn byte_sum(s: Seq<u8>) -> nat
    decreases s.len(),
{
    if s.len() == 0 {
        0
    } else {
        byte_sum(s.drop_last()) + s.last() as nat
    }
}

/// One's complement of the byte sum modulo 256.
pub open spec fn checksum_of(payload: Seq<u8>) -> u8 {
    (255 - byte_sum(payload) % 256) as u8
}

pub open spec fn frame_status_of(frame: Seq<u8>) -> FrameStatus {
    if frame.len() >= 1 && frame[0] != SYNC_BYTE {
        FrameStatus::BadSync
    } else if frame.len() >= 2 && frame[1] != SYNC_BYTE {
        FrameStatus::BadSync
    } else if frame.len() < 3 {
        FrameStatus::NeedMore
    } else if frame[2] > MAX_PAYLOAD_LENGTH {
        FrameStatus::Oversized
    } else if frame.len() < frame[2] + 4 {
        FrameStatus::NeedMore
    } else {
        FrameStatus::Complete
    }
}

/// The frame that carries `payload` with the given checksum byte.
pub open spec fn frame_with(payload: Seq<u8>, checksum: u8) -> Seq<u8> {
    seq![SYNC_BYTE, SYNC_BYTE, payload.len() as u8] + payload + seq![checksum]
}

pub open spec fn frame_payload(frame: Seq<u8>) -> Seq<u8> {
    frame.subrange(3, 3 + frame[2] as int)
}

pub open spec fn frame_checksum(frame: Seq<u8>) -> u8 {
    frame[3 + frame[2] as int]
}

/// The payload of a frame that passes sync, length and checksum validation.
pub open spec fn accepted_payload(frame: Seq<u8>) -> Option<Seq<u8>> {
    if frame_status_of(frame) == FrameStatus::Complete && frame_checksum(frame) == checksum_of(
        frame_payload(frame),
    ) {
        Some(frame_payload(frame))
    } else {
        None
    }
}

pub open spec fn no_values() -> PayloadValues {
    PayloadValues {
        poor_quality: WORST_POOR_QUALITY,
        attention: 0,
        meditation: 0,
        fresh: false,
    }
}

/// Scans the tag stream of `p` from position `i` on, left to right.
///
/// Tags 0x02, 0x04 and 0x05 take the next byte as quality, attention and
/// meditation; 0x80 is skipped with 2 bytes of payload (3 in all) and 0x83
/// with 24 (25 in all); any other tag is skipped alone. A value tag in the last position has no value
/// byte and ends the scan.
pub open spec fn scan_tags(p: Seq<u8>, i: int, acc: PayloadValues) -> PayloadValues
    decreases p.len() + 26 - i,
{
    if i < 0 || i >= p.len() {
        acc
    } else if p[i] == 2 || p[i] == 4 || p[i] == 5 {
        if i + 1 >= p.len() {
            acc
        } else {
            let v = p[i + 1];
            let next = if p[i] == 2 {
                PayloadValues { poor_quality: v, fresh: true, ..acc }
            } else if p[i] == 4 {
                PayloadValues { attention: v, ..acc }
            } else {
                PayloadValues { meditation: v, ..acc }
            };
            scan_tags(p, i + 2, next)
        }
    } else if p[i] == 0x80 {
        scan_tags(p, i + 3, acc)
    } else if p[i] == 0x83 {
        scan_tags(p, i + 25, acc)
    } else {
        scan_tags(p, i + 1, acc)
    }
}

/// The values a payload carries.
pub open spec fn payload_values(p: Seq<u8>) -> PayloadValues {
    scan_tags(p, 0, no_values())
}

/// Whether `frame` is settled, and how.
pub fn frame_status(frame: &[u8]) -> (r: FrameStatus)
    ensures
        r == frame_status_of(frame@),
{
    let n = frame.len();
    if n >= 1 && frame[0] != SYNC_BYTE {
        FrameStatus::BadSync
    } else if n >= 2 && frame[1] != SYNC_BYTE {
        FrameStatus::BadSync
    } else if n < 3 {
        FrameStatus::NeedMore
    } else if frame[2] > MAX_PAYLOAD_LENGTH {
        FrameStatus::Oversized
    } else if n < frame[2] as usize + 4 {
        FrameStatus::NeedMore
    } else {
        FrameStatus::Complete
    }
}

proof fn lemma_byte_sum_push(s: Seq<u8>, b: u8)
    ensures
        byte_sum(s.push(b)) == byte_sum(s) + b,
{
    assert(s.push(b).drop_last() == s);
}

/// The checksum byte that a frame carrying `payload` must end with.
pub fn payload_checksum(payload: &[u8]) -> (r: u8)
    ensures
        r == checksum_of(payload@),
{
    let mut sum: u8 = 0;
    let mut i: usize = 0;
    while i < payload.len()
        invariant
            i <= payload.len(),
            sum == byte_sum(payload@.subrange(0, i as int)) % 256,
        decreases payload.len() - i,
    {
        proof {
            lemma_byte_sum_push(payload@.subrange(0, i as int), payload@[i as int]);
            assert(payload@.subrange(0, i as int).push(payload@[i as int]) == payload@.subrange(
                0,
                i + 1,
            ));
        }
        sum = sum.wrapping_add(payload[i]);
        i = i + 1;
    }
    assert(payload@.subrange(0, payload.len() as int) == payload@);
    255 - sum
}

/// The attention, meditation and quality values that a payload carries.
pub fn parse_payload(payload: &[u8]) -> (r: PayloadValues)
    ensures
        r == payload_values(payload@),
{
    let ghost p = payload@;
    let mut acc = PayloadValues {
        poor_quality: WORST_POOR_QUALITY,
        attention: 0,
        meditation: 0,
        fresh: false,
    };
    let mut i: usize = 0;
    while i < payload.len()
        invariant
            p == payload@,
            scan_tags(p, i as int, acc) == payload_values(p),
            i <= payload.len(),
        decreases payload.len() - i,
    {
        let tag = payload[i];
        if tag == 2 || tag == 4 || tag == 5 {
            if i + 1 >= payload.len() {
                return acc;
            }
            let v = payload[i + 1];
            if tag == 2 {
                acc = PayloadValues { poor_quality: v, fresh: true, ..acc };
            } else if tag == 4 {
                acc = PayloadValues { attention: v, ..acc };
            } else {
                acc = PayloadValues { meditation: v, ..acc };
            }
            i = i + 2;
        } else if tag == 0x80 {
            if payload.len() - i <= 3 {
                assert(scan_tags(p, i + 3, acc) == acc);
                return acc;
            }
            i = i + 3;
        } else if tag == 0x83 {
            if payload.len() - i <= 25 {
                assert(scan_tags(p, i + 25, acc) == acc);
                return acc;
            }
            i = i + 25;
        } else {
            i = i + 1;
        }
    }
    acc
}

/// What a [`Mindwave`] holds, as plain values.
pub struct MindwaveView {
    pub debug: bool,
    pub new_packet: bool,
    pub poor_quality: u8,
    pub attention: u8,
    pub meditation: u8,
    /// When the last fresh packet was accepted, in milliseconds.
    pub last_received_ms: u64,
    /// Staleness timeout, in milliseconds.
    pub timeout_ms: u64,
}

/// Milliseconds from `last` to `now`; a clock that went backwards counts as none.
pub open spec fn elapsed_ms(last: u64, now: u64) -> int {
    if now >= last {
        now - last
    } else {
        0
    }
}

/// The state after [`Mindwave::update`] is handed `frame` at time `now`.
pub open spec fn after_update(v: MindwaveView, frame: Seq<u8>, now: u64) -> MindwaveView {
    match accepted_payload(frame) {
        None => MindwaveView { new_packet: false, ..v },
        Some(p) => {
            let r = payload_values(p);
            if r.fresh {
                MindwaveView {
                    new_packet: true,
                    poor_quality: r.poor_quality,
                    attention: r.attention,
                    meditation: r.meditation,
                    last_received_ms: now,
                    ..v
                }
            } else if elapsed_ms(v.last_received_ms, now) > v.timeout_ms {
                MindwaveView {
                    new_packet: false,
                    poor_quality: WORST_POOR_QUALITY,
                    attention: 0,
                    meditation: 0,
                    ..v
                }
            } else {
                MindwaveView {
                    new_packet: false,
                    poor_quality: r.poor_quality,
                    attention: r.attention,
                    meditation: r.meditation,
                    ..v
                }
            }
        },
    }
}

/// The EEG headset's latest readings, kept up to date from serial frames.
pub struct Mindwave {
    debug: bool,
    new_packet: bool,
    poor_quality: u8,
    attention: u8,
    meditation: u8,
    last_received_ms: u64,
    timeout_ms: u64,
}

impl View for Mindwave {
    type V = MindwaveView;

    closed spec fn view(&self) -> MindwaveView {
        MindwaveView {
            debug: self.debug,
            new_packet: self.new_packet,
            poor_quality: self.poor_quality,
            attention: self.attention,
            meditation: self.meditation,
            last_received_ms: self.last_received_ms,
            timeout_ms: self.timeout_ms,
        }
    }
}

impl Mindwave {
    /// A headset state with no data yet, created at time `now_ms`.
    pub fn init(now_ms: u64) -> (r: Mindwave)
        ensures
            r@ == (MindwaveView {
                debug: false,
                new_packet: false,
                poor_quality: WORST_POOR_QUALITY,
                attention: 0,
                meditation: 0,
                last_received_ms: now_ms,
                timeout_ms: DEFAULT_TIMEOUT_MS,
            }),
    {
        Mindwave {
            debug: false,
            new_packet: false,
            poor_quality: WORST_POOR_QUALITY,
            attention: 0,
            meditation: 0,
            last_received_ms: now_ms,
            timeout_ms: DEFAULT_TIMEOUT_MS,
        }
    }

    /// Takes the bytes read for one frame attempt at time `now_ms`.
    ///
    /// A frame that fails sync, length or checksum validation, or that is not
    /// complete, is dropped and only clears the new-packet flag.
    pub fn update(&mut self, frame: &[u8], now_ms: u64)
        ensures
            final(self)@ == after_update(old(self)@, frame@, now_ms),
    {
        self.new_packet = false;
        if frame_status(frame) != FrameStatus::Complete {
            return;
        }
        let len = frame[2] as usize;
        let mut payload: Vec<u8> = Vec::new();
        let mut i: usize = 3;
        while i < 3 + len
            invariant
                3 <= i <= 3 + len,
                len == frame@[2],
                3 + len < frame@.len(),
                payload@ == frame@.subrange(3, i as int),
            decreases 3 + len - i,
        {
            payload.push(frame[i]);
            assert(payload@ == frame@.subrange(3, i + 1));
            i = i + 1;
        }
        if frame[3 + len] != payload_checksum(payload.as_slice()) {
            return;
        }
        let r = parse_payload(payload.as_slice());
        let elapsed = now_ms.saturating_sub(self.last_received_ms);
        if r.fresh {
            self.poor_quality = r.poor_quality;
            self.attention = r.attention;
            self.meditation = r.meditation;
            self.new_packet = true;
            self.last_received_ms = now_ms;
        } else if elapsed > self.timeout_ms {
            self.poor_quality = WORST_POOR_QUALITY;
            self.attention = 0;
            self.meditation = 0;
        } else {
            self.poor_quality = r.poor_quality;
            self.attention = r.attention;
            self.meditation = r.meditation;
        }
    }

    /// Whether to report each packet.
    pub fn set_debug(&mut self, d: bool)
        ensures
            final(self)@ == (MindwaveView { debug: d, ..old(self)@ }),
    {
        self.debug = d;
    }

    /// How long without a fresh packet before the readings fall back to
    /// their defaults, in milliseconds.
    pub fn set_timeout(&mut self, timeout_ms: u64)
        ensures
            final(self)@ == (MindwaveView { timeout_ms, ..old(self)@ }),
    {
        self.timeout_ms = timeout_ms;
    }

    /// Whether the last update accepted a fresh packet.
    pub fn has_new_data(&self) -> (r: bool)
        ensures
            r == self@.new_packet,
    {
        self.new_packet
    }

    pub fn is_debugging(&self) -> (r: bool)
        ensures
            r == self@.debug,
    {
        self.debug
    }

    /// Attention level, from 0 (low) to 100 (high).
    pub fn get_attention(&self) -> (r: u8)
        ensures
            r == self@.attention,
    {
        self.attention
    }

    /// Meditation level, from 0 (low) to 100 (high).
    pub fn get_meditation(&self) -> (r: u8)
        ensures
            r == self@.meditation,
    {
        self.meditation
    }

    /// Raw signal quality, from 0 (good) to 200 (no signal).
    pub fn get_poor_quality(&self) -> (r: u8)
        ensures
            r == self@.poor_quality,
    {
        self.poor_quality
    }

    /// Signal quality from 0 (no signal) to 200 (good); a raw value past 200
    /// counts as no signal.
    pub fn get_quality(&self) -> (r: u8)
        ensures
            r == (if self@.poor_quality <= WORST_POOR_QUALITY {
                WORST_POOR_QUALITY - self@.poor_quality
            } else {
                0
            }),
    {
        if self.poor_quality <= WORST_POOR_QUALITY {
            WORST_POOR_QUALITY - self.poor_quality
        } else {
            0
        }
    }
}

proof fn lemma_byte_sum_update(s: Seq<u8>, j: int, b: u8)
    requires
        0 <= j < s.len(),
    ensures
        byte_sum(s.update(j, b)) + s[j] == byte_sum(s) + b,
    decreases s.len(),
{
    let t = s.update(j, b);
    if j == s.len() - 1 {
        assert(t.drop_last() == s.drop_last());
    } else {
        lemma_byte_sum_update(s.drop_last(), j, b);
        assert(t.drop_last() == s.drop_last().update(j, b));
    }
}

proof fn lemma_single_bit_flip(x: u8, k: u8)
    requires
        k < 8,
    ensures
        ({
            let d = (x ^ (1u8 << k)) as int - x as int;
            (1 <= d <= 128) || (-128 <= d <= -1)
        }),
{
    let y = x ^ (1u8 << k);
    assert((y as u16 == x as u16 + (1u16 << k as u16) || y as u16 + (1u16 << k as u16) == x as u16)
        && 1 <= (1u16 << k as u16) <= 128) by (bit_vector)
        requires
            y == x ^ (1u8 << k),
            k < 8,
    ;
}

/// A frame built around any payload of allowed length, with that payload's
/// checksum, is accepted. The update then reports a new packet exactly when the
/// payload carries a quality tag, and takes the payload's tag values; without
/// that tag it takes them too, unless the last fresh packet is older than the
/// timeout, in which case the readings fall back to their defaults.
pub proof fn lemma_well_formed_frame_accepted(v: MindwaveView, payload: Seq<u8>, now: u64)
    requires
        payload.len() <= MAX_PAYLOAD_LENGTH,
    ensures
        accepted_payload(frame_with(payload, checksum_of(payload))) == Some(payload),
        ({
            let r = payload_values(payload);
            let w = after_update(v, frame_with(payload, checksum_of(payload)), now);
            &&& w.new_packet == r.fresh
            &&& r.fresh ==> w.poor_quality == r.poor_quality && w.attention == r.attention
                && w.meditation == r.meditation && w.last_received_ms == now
            &&& !r.fresh ==> w.last_received_ms == v.last_received_ms
            &&& !r.fresh && elapsed_ms(v.last_received_ms, now) <= v.timeout_ms ==> w.poor_quality
                == r.poor_quality && w.attention == r.attention && w.meditation == r.meditation
            &&& !r.fresh && elapsed_ms(v.last_received_ms, now) > v.timeout_ms ==> w.poor_quality
                == WORST_POOR_QUALITY && w.attention == 0 && w.meditation == 0
        }),
{
    let f = frame_with(payload, checksum_of(payload));
    assert(f.len() == payload.len() + 4);
    assert(f[0] == SYNC_BYTE && f[1] == SYNC_BYTE && f[2] == payload.len());
    assert(frame_payload(f) == payload);
    assert(frame_checksum(f) == checksum_of(payload));
}

/// A frame that fails any check (sync, length, checksum) or is incomplete is
/// discarded whole: the update only clears the new-packet flag and leaves
/// every reading and the time of the last packet as they were.
pub proof fn lemma_rejected_frame_keeps_state(v: MindwaveView, frame: Seq<u8>, now: u64)
    requires
        accepted_payload(frame) == Option::<Seq<u8>>::None,
    ensures
        after_update(v, frame, now) == (MindwaveView { new_packet: false, ..v }),
{
}

/// Flipping any single bit of the payload of a well-formed frame breaks its
/// checksum: the frame is dropped, no new packet is reported and the readings
/// stay as they were.
pub proof fn lemma_flipped_bit_rejected(
    v: MindwaveView,
    payload: Seq<u8>,
    j: int,
    k: u8,
    now: u64,
)
    requires
        payload.len() <= MAX_PAYLOAD_LENGTH,
        0 <= j < payload.len(),
        k < 8,
    ensures
        ({
            let bad = frame_with(payload.update(j, payload[j] ^ (1u8 << k)), checksum_of(payload));
            &&& accepted_payload(bad) is None
            &&& after_update(v, bad, now) == MindwaveView { new_packet: false, ..v }
        }),
{
    let flipped = payload.update(j, payload[j] ^ (1u8 << k));
    let bad = frame_with(flipped, checksum_of(payload));
    lemma_byte_sum_update(payload, j, payload[j] ^ (1u8 << k));
    lemma_single_bit_flip(payload[j], k);
    assert(frame_payload(bad) == flipped);
    assert(frame_checksum(bad) == checksum_of(payload));
    let a = byte_sum(payload);
    let b = byte_sum(flipped);
    assert(a % 256 != b % 256) by {
        let d = b - a;
        assert((1 <= d <= 128) || (-128 <= d <= -1));
        assert(b == a + d);
        if a % 256 == b % 256 {
            assert((a + d) % 256 == a % 256);
            vstd::arithmetic::div_mod::lemma_fundamental_div_mod(a as int, 256);
            vstd::arithmetic::div_mod::lemma_fundamental_div_mod(b as int, 256);
            assert(d == 256 * (b / 256 - a / 256)) by (nonlinear_arith)
                requires
                    a == 256 * (a / 256) + a % 256,
                    b == 256 * (b / 256) + b % 256,
                    a % 256 == b % 256,
                    d == b - a,
            ;
            assert(false) by (nonlinear_arith)
                requires
                    d == 256 * (b / 256 - a / 256),
                    (1 <= d <= 128) || (-128 <= d <= -1),
            ;
        }
    }
    assert(checksum_of(flipped) != checksum_of(payload));
}

} // verus!
