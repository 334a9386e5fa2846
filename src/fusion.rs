//! The consumer side of sensor fusion.
//!
//! Acquisition tasks send [`DeviceSignal`]s into one FIFO channel; the
//! consumer takes them in arrival order, keeps a bounded history of each
//! channel for display, and turns each into at most one [`ActuatorCommand`].
//! A keyboard override lets an operator drive the actuator by hand.
use vstd::prelude::*;
use crate::window::window_after;

verus! {

/// Attention at or below this maps to an untouched trigger.
pub const EEG_LOWER_BOUND: u8 = 20;

/// Attention at or above this maps to a fully pulled trigger.
pub const EEG_UPPER_BOUND: u8 = 80;

/// Trigger word of a fully pulled trigger (12-bit DAC).
pub const TRIGGER_FULL_SCALE: u16 = 4095;

/// Entries kept per history channel.
pub const HISTORY_CAPACITY: usize = 200;

/// One event from an acquisition task.
#[derive(Clone, Copy, Debug, PartialEq, Eq, Structural)]
pub enum DeviceSignal {
    /// Attention, meditation and signal quality from the EEG headset.
    Eeg(u8, u8, u8),
    /// Detector answer and filtered sample of the left muscle channel.
    Myo1(bool, i32),
    /// Detector answer and filtered sample of the right muscle channel.
    Myo2(bool, i32),
}

/// An event for the operator console: an input, or a periodic tick.
pub enum Event<I> {
    Input(I),
    Tick,
}

/// What the actuator is told to do.
#[derive(Clone, Copy, Debug, PartialEq, Eq, Structural)]
pub enum ActuatorCommand {
    /// Trigger position as a DAC word, 0 (released) to [`TRIGGER_FULL_SCALE`].
    SetTrigger(u16),
    SetLeftButton(bool),
    SetRightButton(bool),
}

/// What the consumer does after an event.
#[derive(Clone, Copy, Debug, PartialEq, Eq, Structural)]
pub enum ConsumerAction {
    Idle,
    Actuate(ActuatorCommand),
    /// Set the shared cancellation flag.
    Quit,
}

/// An EEG reading with the consumer tick at which it arrived.
#[derive(Clone, Copy, Debug, PartialEq, Eq, Structural)]
pub struct EegRecord {
    pub tick: u64,
    pub attention: u8,
    pub meditation: u8,
    pub quality: u8,
}

/// A muscle-channel sample with the consumer tick at which it arrived.
#[derive(Clone, Copy, Debug, PartialEq, Eq, Structural)]
pub struct MyoRecord {
    pub tick: u64,
    pub value: i32,
}

/// Attention clamped to `[EEG_LOWER_BOUND, EEG_UPPER_BOUND]`.
pub open spec fn clamped(a: u8) -> u8 {
    if a < EEG_LOWER_BOUND {
        EEG_LOWER_BOUND
    } else if a > EEG_UPPER_BOUND {
        EEG_UPPER_BOUND
    } else {
        a
    }
}

/// Attention clamped to `[20, 80]`, remapped linearly onto the trigger's full
/// range and rounded down.
pub open spec fn trigger_of_attention(a: u8) -> u16 {
    ((clamped(a) - EEG_LOWER_BOUND) * TRIGGER_FULL_SCALE / (EEG_UPPER_BOUND
        - EEG_LOWER_BOUND)) as u16
}

/// A percentage of the trigger's full range, rounded down.
pub open spec fn trigger_of_percent(p: u8) -> u16 {
    (p * TRIGGER_FULL_SCALE / 100) as u16
}

/// Attention clamped to `[EEG_LOWER_BOUND, EEG_UPPER_BOUND]`.
pub fn clamp_attention(a: u8) -> (r: u8)
    ensures
        r == clamped(a),
{
    if a < EEG_LOWER_BOUND {
        EEG_LOWER_BOUND
    } else if a > EEG_UPPER_BOUND {
        EEG_UPPER_BOUND
    } else {
        a
    }
}

/// The trigger word for an attention level.
pub fn attention_to_trigger(a: u8) -> (r: u16)
    ensures
        r == trigger_of_attention(a),
        r <= TRIGGER_FULL_SCALE,
{
    let c = clamp_attention(a) as u32;
    let r = (c - EEG_LOWER_BOUND as u32) * (TRIGGER_FULL_SCALE as u32) / ((EEG_UPPER_BOUND
        - EEG_LOWER_BOUND) as u32);
    assert(r <= 4095) by (nonlinear_arith)
        requires
            r == (c - 20) * 4095 / 60,
            20 <= c <= 80,
    ;
    r as u16
}

/// The trigger word for a percentage of the full range.
pub fn percent_to_trigger(p: u8) -> (r: u16)
    requires
        p <= 100,
    ensures
        r == trigger_of_percent(p),
        r <= TRIGGER_FULL_SCALE,
{
    let r = (p as u32) * (TRIGGER_FULL_SCALE as u32) / 100;
    assert(r <= 4095) by (nonlinear_arith)
        requires
            r == p * 4095 / 100,
            p <= 100,
    ;
    r as u16
}

/// What a [`Collector`] holds, as plain values.
pub struct CollectorView {
    pub eeg_history: Seq<EegRecord>,
    pub left_history: Seq<MyoRecord>,
    pub right_history: Seq<MyoRecord>,
    pub left_pressed: bool,
    pub right_pressed: bool,
    pub trigger: u16,
    pub override_output: bool,
    pub tick: u64,
}

pub open spec fn next_tick(t: u64) -> u64 {
    if t == u64::MAX {
        t
    } else {
        (t + 1) as u64
    }
}

/// The consumer's state and action after one event from the channel.
pub open spec fn after_signal(v: CollectorView, sig: DeviceSignal) -> (CollectorView, ConsumerAction) {
    let cap = HISTORY_CAPACITY as nat;
    let t = next_tick(v.tick);
    match sig {
        DeviceSignal::Eeg(a, m, q) => {
            let h = window_after(
                v.eeg_history,
                EegRecord { tick: v.tick, attention: a, meditation: m, quality: q },
                cap,
            );
            if v.override_output {
                (CollectorView { eeg_history: h, tick: t, ..v }, ConsumerAction::Idle)
            } else {
                (
                    CollectorView { eeg_history: h, trigger: trigger_of_attention(a), tick: t, ..v },
                    ConsumerAction::Actuate(ActuatorCommand::SetTrigger(trigger_of_attention(a))),
                )
            }
        },
        DeviceSignal::Myo1(s, val) => {
            let h = window_after(v.left_history, MyoRecord { tick: v.tick, value: val }, cap);
            if v.override_output {
                (CollectorView { left_history: h, tick: t, ..v }, ConsumerAction::Idle)
            } else {
                (
                    CollectorView { left_history: h, left_pressed: s, tick: t, ..v },
                    ConsumerAction::Actuate(ActuatorCommand::SetLeftButton(s)),
                )
            }
        },
        DeviceSignal::Myo2(s, val) => {
            let h = window_after(v.right_history, MyoRecord { tick: v.tick, value: val }, cap);
            if v.override_output {
                (CollectorView { right_history: h, tick: t, ..v }, ConsumerAction::Idle)
            } else {
                (
                    CollectorView { right_history: h, right_pressed: s, tick: t, ..v },
                    ConsumerAction::Actuate(ActuatorCommand::SetRightButton(s)),
                )
            }
        },
    }
}

/// The consumer's state and action after an operator key.
///
/// `q` quits; `m` toggles the override; while the override is on, `z`/`x`
/// press and release the left button, `c`/`v` the right one, and `b`/`n` pull
/// the trigger fully and release it. Every other key does nothing.
pub open spec fn after_key(v: CollectorView, key: char) -> (CollectorView, ConsumerAction) {
    if key == 'q' {
        (v, ConsumerAction::Quit)
    } else if key == 'm' {
        (CollectorView { override_output: !v.override_output, ..v }, ConsumerAction::Idle)
    } else if !v.override_output {
        (v, ConsumerAction::Idle)
    } else if key == 'z' || key == 'x' {
        (
            CollectorView { left_pressed: key == 'z', ..v },
            ConsumerAction::Actuate(ActuatorCommand::SetLeftButton(key == 'z')),
        )
    } else if key == 'c' || key == 'v' {
        (
            CollectorView { right_pressed: key == 'c', ..v },
            ConsumerAction::Actuate(ActuatorCommand::SetRightButton(key == 'c')),
        )
    } else if key == 'b' || key == 'n' {
        let t: u16 = if key == 'b' {
            TRIGGER_FULL_SCALE
        } else {
            0
        };
        (CollectorView { trigger: t, ..v }, ConsumerAction::Actuate(ActuatorCommand::SetTrigger(t)))
    } else {
        (v, ConsumerAction::Idle)
    }
}

/// Appends `x` to a history, dropping the oldest entry past the capacity.
fn push_bounded<T>(h: &mut Vec<T>, x: T)
    requires
        old(h)@.len() <= HISTORY_CAPACITY,
    ensures
        final(h)@ == window_after(old(h)@, x, HISTORY_CAPACITY as nat),
        final(h)@.len() <= HISTORY_CAPACITY,
{
    h.push(x);
    if h.len() > HISTORY_CAPACITY {
        h.remove(0);
    }
}

/// The fusion consumer's state.
pub struct Collector {
    eeg_history: Vec<EegRecord>,
    left_history: Vec<MyoRecord>,
    right_history: Vec<MyoRecord>,
    left_pressed: bool,
    right_pressed: bool,
    trigger: u16,
    override_output: bool,
    tick: u64,
}

impl View for Collector {
    type V = CollectorView;

    closed spec fn view(&self) -> CollectorView {
        CollectorView {
            eeg_history: self.eeg_history@,
            left_history: self.left_history@,
            right_history: self.right_history@,
            left_pressed: self.left_pressed,
            right_pressed: self.right_pressed,
            trigger: self.trigger,
            override_output: self.override_output,
            tick: self.tick,
        }
    }
}

impl Collector {
    /// Every history holds at most [`HISTORY_CAPACITY`] entries.
    pub open spec fn wf(&self) -> bool {
        &&& self@.eeg_history.len() <= HISTORY_CAPACITY
        &&& self@.left_history.len() <= HISTORY_CAPACITY
        &&& self@.right_history.len() <= HISTORY_CAPACITY
    }

    /// A consumer with empty histories, buttons released, the trigger at
    /// rest and the override off.
    pub fn new() -> (r: Collector)
        ensures
            r.wf(),
            r@ == (CollectorView {
                eeg_history: Seq::empty(),
                left_history: Seq::empty(),
                right_history: Seq::empty(),
                left_pressed: false,
                right_pressed: false,
                trigger: 0,
                override_output: false,
                tick: 0,
            }),
    {
        Collector {
            eeg_history: Vec::new(),
            left_history: Vec::new(),
            right_history: Vec::new(),
            left_pressed: false,
            right_pressed: false,
            trigger: 0,
            override_output: false,
            tick: 0,
        }
    }

    /// Takes the next event from the channel.
    pub fn handle_signal(&mut self, sig: DeviceSignal) -> (r: ConsumerAction)
        requires
            old(self).wf(),
        ensures
            final(self).wf(),
            (final(self)@, r) == after_signal(old(self)@, sig),
    {
        let tick = self.tick;
        let action = match sig {
            DeviceSignal::Eeg(a, m, q) => {
                push_bounded(
                    &mut self.eeg_history,
                    EegRecord { tick, attention: a, meditation: m, quality: q },
                );
                if self.override_output {
                    ConsumerAction::Idle
                } else {
                    let code = attention_to_trigger(a);
                    self.trigger = code;
                    ConsumerAction::Actuate(ActuatorCommand::SetTrigger(code))
                }
            },
            DeviceSignal::Myo1(s, val) => {
                push_bounded(&mut self.left_history, MyoRecord { tick, value: val });
                if self.override_output {
                    ConsumerAction::Idle
                } else {
                    self.left_pressed = s;
                    ConsumerAction::Actuate(ActuatorCommand::SetLeftButton(s))
                }
            },
            DeviceSignal::Myo2(s, val) => {
                push_bounded(&mut self.right_history, MyoRecord { tick, value: val });
                if self.override_output {
                    ConsumerAction::Idle
                } else {
                    self.right_pressed = s;
                    ConsumerAction::Actuate(ActuatorCommand::SetRightButton(s))
                }
            },
        };
        self.tick = self.tick.saturating_add(1);
        action
    }

    /// Takes an operator key.
    pub fn handle_key(&mut self, key: char) -> (r: ConsumerAction)
        requires
            old(self).wf(),
        ensures
            final(self).wf(),
            (final(self)@, r) == after_key(old(self)@, key),
    {
        if key == 'q' {
            ConsumerAction::Quit
        } else if key == 'm' {
            self.override_output = !self.override_output;
            ConsumerAction::Idle
        } else if !self.override_output {
            ConsumerAction::Idle
        } else if key == 'z' || key == 'x' {
            self.left_pressed = key == 'z';
            ConsumerAction::Actuate(ActuatorCommand::SetLeftButton(key == 'z'))
        } else if key == 'c' || key == 'v' {
            self.right_pressed = key == 'c';
            ConsumerAction::Actuate(ActuatorCommand::SetRightButton(key == 'c'))
        } else if key == 'b' || key == 'n' {
            let t: u16 = if key == 'b' {
                TRIGGER_FULL_SCALE
            } else {
                0
            };
            self.trigger = t;
            ConsumerAction::Actuate(ActuatorCommand::SetTrigger(t))
        } else {
            ConsumerAction::Idle
        }
    }

    pub fn eeg_history(&self) -> (r: &[EegRecord])
        ensures
            r@ == self@.eeg_history,
    {
        self.eeg_history.as_slice()
    }

    pub fn left_history(&self) -> (r: &[MyoRecord])
        ensures
            r@ == self@.left_history,
    {
        self.left_history.as_slice()
    }

    pub fn right_history(&self) -> (r: &[MyoRecord])
        ensures
            r@ == self@.right_history,
    {
        self.right_history.as_slice()
    }

    /// Whether the left button is held, as last commanded.
    pub fn left_pressed(&self) -> (r: bool)
        ensures
            r == self@.left_pressed,
    {
        self.left_pressed
    }

    /// Whether the right button is held, as last commanded.
    pub fn right_pressed(&self) -> (r: bool)
        ensures
            r == self@.right_pressed,
    {
        self.right_pressed
    }

    /// The trigger word last commanded.
    pub fn trigger(&self) -> (r: u16)
        ensures
            r == self@.trigger,
    {
        self.trigger
    }

    pub fn override_output(&self) -> (r: bool)
        ensures
            r == self@.override_output,
    {
        self.override_output
    }

    /// Number of events taken so far; each is half a display time unit.
    pub fn tick(&self) -> (r: u64)
        ensures
            r == self@.tick,
    {
        self.tick
    }
}

/// The least and the greatest of `values`, or `None` when there are none.
pub fn bounds(values: &[i64]) -> (r: Option<(i64, i64)>)
    ensures
        values@.len() == 0 <==> r is None,
        r matches Some((lo, hi)) ==> {
            &&& exists|i: int| 0 <= i < values@.len() && values@[i] == lo
            &&& exists|i: int| 0 <= i < values@.len() && values@[i] == hi
            &&& forall|i: int| 0 <= i < values@.len() ==> lo <= #[trigger] values@[i] <= hi
        },
{
    if values.len() == 0 {
        return None;
    }
    let mut lo = values[0];
    let mut hi = values[0];
    let mut i: usize = 1;
    while i < values.len()
        invariant
            1 <= i <= values@.len(),
            exists|j: int| 0 <= j < i && values@[j] == lo,
            exists|j: int| 0 <= j < i && values@[j] == hi,
            forall|j: int| 0 <= j < i ==> lo <= #[trigger] values@[j] <= hi,
        decreases values.len() - i,
    {
        let x = values[i];
        if x < lo {
            lo = x;
        }
        if x > hi {
            hi = x;
        }
        i = i + 1;
    }
    Some((lo, hi))
}

} // verus!
