//! Bookkeeping of the sliding-window spectrum analyzer.
//!
//! The analyzer keeps the last [`DFT_LENGTH`] samples in a circular buffer.
//! [`SpectrumCursor`] says which slot the next sample overwrites and whether
//! the spectrum is meaningful yet; [`hann_neighbours`] gives the bins that the
//! Hann window mixes into each bin, wrapping at both ends.
use vstd::prelude::*;

verus! {

/// Length of the sample buffer and number of frequency bins.
pub const DFT_LENGTH: usize = 512;

/// What a [`SpectrumCursor`] holds, as plain values.
pub struct SpectrumCursorView {
    /// Slot of the buffer that the next sample overwrites.
    pub x_index: nat,
    /// Whether a full buffer of samples has been absorbed.
    pub data_valid: bool,
}

/// The cursor after `n` samples.
pub open spec fn cursor_after(n: nat) -> SpectrumCursorView {
    SpectrumCursorView { x_index: n % (DFT_LENGTH as nat), data_valid: n >= DFT_LENGTH }
}

/// The cursor after one more sample.
pub open spec fn cursor_step(c: SpectrumCursorView) -> SpectrumCursorView {
    if c.x_index + 1 >= DFT_LENGTH {
        SpectrumCursorView { x_index: 0, data_valid: true }
    } else {
        SpectrumCursorView { x_index: c.x_index + 1, data_valid: c.data_valid }
    }
}

/// The cursor after `n` more samples.
pub open spec fn cursor_steps(c: SpectrumCursorView, n: nat) -> SpectrumCursorView
    decreases n,
{
    if n == 0 {
        c
    } else {
        cursor_step(cursor_steps(c, (n - 1) as nat))
    }
}

/// Position in the circular buffer and validity of the spectrum.
pub struct SpectrumCursor {
    x_index: usize,
    data_valid: bool,
}

impl View for SpectrumCursor {
    type V = SpectrumCursorView;

    closed spec fn view(&self) -> SpectrumCursorView {
        SpectrumCursorView { x_index: self.x_index as nat, data_valid: self.data_valid }
    }
}

impl SpectrumCursor {
    pub closed spec fn wf(&self) -> bool {
        self.x_index < DFT_LENGTH
    }

    /// The cursor before any sample.
    pub fn new() -> (r: SpectrumCursor)
        ensures
            r.wf(),
            r@ == cursor_after(0),
    {
        SpectrumCursor { x_index: 0, data_valid: false }
    }

    /// Whether the spectrum is meaningful: a full buffer of samples has been
    /// absorbed.
    pub fn is_data_valid(&self) -> (r: bool)
        ensures
            r == self@.data_valid,
    {
        self.data_valid
    }

    /// The slot that the next sample overwrites.
    pub fn index(&self) -> (r: usize)
        requires
            self.wf(),
        ensures
            r == self@.x_index,
            r < DFT_LENGTH,
    {
        self.x_index
    }

    /// Moves past the slot just written. Returns whether the spectrum is
    /// meaningful now.
    pub fn update(&mut self) -> (r: bool)
        requires
            old(self).wf(),
        ensures
            final(self).wf(),
            final(self)@ == cursor_step(old(self)@),
            r == final(self)@.data_valid,
    {
        self.x_index = self.x_index + 1;
        if self.x_index >= DFT_LENGTH {
            self.data_valid = true;
            self.x_index = 0;
        }
        self.data_valid
    }
}

/// The bins next to bin `k`, below and above, wrapping at both ends.
pub fn hann_neighbours(k: usize) -> (r: (usize, usize))
    requires
        k < DFT_LENGTH,
    ensures
        r.0 == (k + DFT_LENGTH - 1) % (DFT_LENGTH as int),
        r.1 == (k + 1) % (DFT_LENGTH as int),
{
    let below = if k == 0 {
        DFT_LENGTH - 1
    } else {
        k - 1
    };
    let above = if k + 1 == DFT_LENGTH {
        0
    } else {
        k + 1
    };
    (below, above)
}

/// Whatever the samples are, the spectrum becomes meaningful exactly with the
/// `DFT_LENGTH`-th sample and stays so for every later one; the write slot is
/// the number of samples so far modulo `DFT_LENGTH`.
pub proof fn lemma_valid_after_full_buffer(n: nat)
    ensures
        cursor_steps(cursor_after(0), n) == cursor_after(n),
        cursor_steps(cursor_after(0), n).data_valid == (n >= DFT_LENGTH),
    decreases n,
{
    if n > 0 {
        let m = (n - 1) as nat;
        lemma_valid_after_full_buffer(m);
        vstd::arithmetic::div_mod::lemma_fundamental_div_mod(m as int, 512);
        let q = m as int / 512;
        let r = m as int % 512;
        if r == 511 {
            vstd::arithmetic::div_mod::lemma_fundamental_div_mod_converse(n as int, 512, q + 1, 0);
        } else {
            vstd::arithmetic::div_mod::lemma_fundamental_div_mod_converse(n as int, 512, q, r + 1);
        }
    }
}

} // verus!
