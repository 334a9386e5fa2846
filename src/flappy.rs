//! Contraction detector for one muscle channel.
//!
//! Each tick takes one filtered sample, squares it into an envelope and feeds
//! the envelope into a running integral. A contraction is reported once
//! nothing has been added to a nonzero integral for more than
//! [`TIME_STANDARD_MS`] ticks. Quiet ticks are those with a zero envelope, so
//! an integral that has reached its top still counts a strong contraction as
//! activity.
use vstd::prelude::*;

verus! {

/// Quiet time, in ticks of one millisecond, after which a contraction counts.
pub const TIME_STANDARD_MS: u32 = 200;

/// What a [`Flappy`] holds, as plain values.
pub struct FlappyView {
    pub threshold: u64,
    pub start_emitting: bool,
    pub emit_number: u32,
    pub integral: u64,
    pub integral_prev: u64,
    pub remain_flag: bool,
    pub time_millis: u32,
    pub time_begin_zero: u32,
}

/// The envelope that enters the integral: the squared sample, or 0 at or
/// below the threshold.
pub open spec fn gated_envelope(threshold: u64, filtered: i32) -> u64 {
    if filtered * filtered > threshold {
        (filtered * filtered) as u64
    } else {
        0
    }
}

/// The integral after adding `env`; it stops at the largest value it can hold.
pub open spec fn integral_add(integral: u64, env: u64) -> u64 {
    if integral + env > u64::MAX {
        u64::MAX
    } else {
        (integral + env) as u64
    }
}

/// One tick of the integral state machine: the next state and whether a
/// contraction is reported on this tick. A tick with a zero envelope and a
/// nonzero integral is quiet and counts time; any other tick marks the
/// integral as still changing.
pub open spec fn count_step(s: FlappyView, env: u64) -> (FlappyView, bool) {
    let prev = s.integral;
    let integral = integral_add(prev, env);
    let emitting = if prev == 0 && env > 0 {
        true
    } else {
        s.start_emitting
    };
    let base = FlappyView { integral_prev: prev, integral, start_emitting: emitting, ..s };
    if env == 0 && prev != 0 {
        let t = vstd::wrapping::u32_specs::wrapping_add(s.time_millis, 1);
        if s.remain_flag {
            (FlappyView { time_millis: t, time_begin_zero: t, remain_flag: false, ..base }, false)
        } else if vstd::wrapping::u32_specs::wrapping_sub(t, s.time_begin_zero)
            > TIME_STANDARD_MS {
            (
                FlappyView {
                    time_millis: t,
                    integral_prev: 0,
                    integral: 0,
                    start_emitting: false,
                    ..base
                },
                true,
            )
        } else {
            (FlappyView { time_millis: t, ..base }, false)
        }
    } else {
        (FlappyView { remain_flag: true, ..base }, false)
    }
}

/// The state after `n` ticks with a zero envelope.
pub open spec fn after_quiet_ticks(s: FlappyView, n: nat) -> FlappyView
    decreases n,
{
    if n == 0 {
        s
    } else {
        count_step(after_quiet_ticks(s, (n - 1) as nat), 0).0
    }
}

/// Whether the zero-envelope tick that follows `i` such ticks reports a
/// contraction.
pub open spec fn quiet_tick_detects(s: FlappyView, i: nat) -> bool {
    count_step(after_quiet_ticks(s, i), 0).1
}

/// A detector at rest, with the calibration threshold 0.
pub open spec fn idle_detector() -> FlappyView {
    FlappyView {
        threshold: 0,
        start_emitting: false,
        emit_number: 0,
        integral: 0,
        integral_prev: 0,
        remain_flag: false,
        time_millis: 0,
        time_begin_zero: 0,
    }
}

/// The contraction detector of one muscle channel.
pub struct Flappy {
    threshold: u64,
    start_emitting: bool,
    emit_number: u32,
    integral: u64,
    integral_prev: u64,
    remain_flag: bool,
    time_millis: u32,
    time_begin_zero: u32,
}

impl View for Flappy {
    type V = FlappyView;

    closed spec fn view(&self) -> FlappyView {
        FlappyView {
            threshold: self.threshold,
            start_emitting: self.start_emitting,
            emit_number: self.emit_number,
            integral: self.integral,
            integral_prev: self.integral_prev,
            remain_flag: self.remain_flag,
            time_millis: self.time_millis,
            time_begin_zero: self.time_begin_zero,
        }
    }
}

impl Flappy {
    /// A detector at rest, with the calibration threshold 0.
    pub fn new() -> (r: Flappy)
        ensures
            r@ == idle_detector(),
    {
        Flappy {
            threshold: 0,
            start_emitting: false,
            emit_number: 0,
            integral: 0,
            integral_prev: 0,
            remain_flag: false,
            time_millis: 0,
            time_begin_zero: 0,
        }
    }

    /// The envelope of a filtered sample: its square. During calibration this
    /// value serves to choose the threshold.
    pub fn get_envelope(&self, filtered: i32) -> (r: u64)
        ensures
            r == filtered * filtered,
    {
        let x = filtered as i64;
        assert(x * x <= 0x4000_0000_0000_0000) by (nonlinear_arith)
            requires
                -0x8000_0000 <= x <= 0x7fff_ffff,
        ;
        assert(x * x >= 0) by (nonlinear_arith);
        (x * x) as u64
    }

    /// Takes one filtered sample, one tick of one millisecond. Returns whether
    /// a contraction episode was under way before this tick.
    pub fn update(&mut self, filtered: i32) -> (r: bool)
        ensures
            r == old(self)@.start_emitting,
            ({
                let emitted = if r {
                    FlappyView {
                        emit_number: vstd::wrapping::u32_specs::wrapping_add(
                            old(self)@.emit_number,
                            1,
                        ),
                        ..old(self)@
                    }
                } else {
                    old(self)@
                };
                final(self)@ == count_step(
                    emitted,
                    gated_envelope(old(self)@.threshold, filtered),
                ).0
            }),
    {
        let envelope = self.get_envelope(filtered);
        let envelope = if envelope > self.threshold {
            envelope
        } else {
            0
        };
        let result = self.start_emitting;
        if result {
            self.emit_number = self.emit_number.wrapping_add(1);
        }
        self.get_emg_count(envelope);
        result
    }

    /// Adds one tick's envelope to the integral. Returns true on the tick at
    /// which nothing has been added to the nonzero integral for more than
    /// [`TIME_STANDARD_MS`] ticks; that tick also clears the integral and ends
    /// the episode. A tick with a nonzero envelope never reports a contraction.
    pub fn get_emg_count(&mut self, envelope: u64) -> (r: bool)
        ensures
            (final(self)@, r) == count_step(old(self)@, envelope),
            r ==> envelope == 0 && old(self)@.integral != 0,
            envelope > 0 ==> final(self)@.remain_flag && !r,
    {
        self.integral_prev = self.integral;
        self.integral = self.integral.saturating_add(envelope);
        if self.integral_prev == 0 && envelope > 0 {
            self.start_emitting = true;
        }
        if envelope == 0 && self.integral_prev != 0 {
            self.time_millis = self.time_millis.wrapping_add(1);
            if self.remain_flag {
                self.time_begin_zero = self.time_millis;
                self.remain_flag = false;
                return false;
            }
            if self.time_millis.wrapping_sub(self.time_begin_zero) > TIME_STANDARD_MS {
                self.integral_prev = 0;
                self.integral = 0;
                self.start_emitting = false;
                return true;
            }
            false
        } else {
            self.remain_flag = true;
            false
        }
    }
}

proof fn lemma_quiet_run(s: FlappyView, i: nat)
    requires
        s.integral != 0,
        s.remain_flag,
        i <= 202,
    ensures
        1 <= i <= 201 ==> {
            let q = after_quiet_ticks(s, i);
            &&& q.integral == s.integral
            &&& !q.remain_flag
            &&& vstd::wrapping::u32_specs::wrapping_sub(q.time_millis, q.time_begin_zero) == i - 1
        },
        i <= 201 ==> quiet_tick_detects(s, i) == (i == 201),
        i == 202 ==> after_quiet_ticks(s, i).integral == 0 && !after_quiet_ticks(
            s,
            i,
        ).start_emitting,
    decreases i,
{
    if i > 0 {
        lemma_quiet_run(s, (i - 1) as nat);
    }
}

proof fn lemma_idle_run(s: FlappyView, i: nat)
    requires
        s.integral == 0,
        !s.start_emitting,
    ensures
        after_quiet_ticks(s, i).integral == 0,
        !after_quiet_ticks(s, i).start_emitting,
        !quiet_tick_detects(s, i),
    decreases i,
{
    if i > 0 {
        lemma_idle_run(s, (i - 1) as nat);
    }
}

proof fn lemma_quiet_ticks_split(s: FlappyView, a: nat, b: nat)
    ensures
        after_quiet_ticks(s, a + b) == after_quiet_ticks(after_quiet_ticks(s, a), b),
    decreases b,
{
    if b > 0 {
        lemma_quiet_ticks_split(s, a, (b - 1) as nat);
        assert((a + b - 1) as nat == a + (b - 1) as nat);
    }
}

/// After a tick with a nonzero envelope, a run of zero-envelope ticks reports exactly one contraction: on
/// the tick that takes the quiet time past [`TIME_STANDARD_MS`], the 202nd of
/// the run, counting the first, which only sets the reference time. From then on
/// the integral is 0 and the episode is over, so no later zero-envelope tick
/// reports another; only a nonzero envelope can start a new one.
pub proof fn lemma_single_detection(s0: FlappyView, env: u64, i: nat)
    requires
        env > 0,
    ensures
        quiet_tick_detects(count_step(s0, env).0, i) == (i == 201),
        i >= 202 ==> after_quiet_ticks(count_step(s0, env).0, i).integral == 0
            && !after_quiet_ticks(count_step(s0, env).0, i).start_emitting,
{
    let s1 = count_step(s0, env).0;
    if i <= 201 {
        lemma_quiet_run(s1, i);
    } else {
        lemma_quiet_run(s1, 202);
        let rest = (i - 202) as nat;
        lemma_quiet_ticks_split(s1, 202, rest);
        assert(i == 202 + rest);
        lemma_idle_run(after_quiet_ticks(s1, 202), rest);
    }
}

} // verus!
