//! Configuration of the muscle-signal filter cascade: anti-hum notch, then
//! low-pass, then high-pass, each stage switchable.
//!
//! The coefficient tables come in two rows, one per supported sample rate, and
//! the notch tables in one pair per mains frequency; [`SampleFrequency::table_row`]
//! picks the row. A configuration outside the supported pairs turns the whole
//! chain into a bypass.
use vstd::prelude::*;

verus! {

/// Mains frequency that the notch stage removes.
#[derive(Clone, Copy, Debug, PartialEq, Eq, Structural)]
pub enum NotchFrequency {
    Freq50Hz,
    Freq60Hz,
}

/// Rate at which the muscle signal is sampled.
#[derive(Clone, Copy, Debug, PartialEq, Eq, Structural)]
pub enum SampleFrequency {
    Freq500Hz,
    Freq1000Hz,
}

impl NotchFrequency {
    pub open spec fn spec_hz(self) -> u32 {
        match self {
            NotchFrequency::Freq50Hz => 50,
            NotchFrequency::Freq60Hz => 60,
        }
    }

    /// The frequency in hertz.
    pub fn hz(self) -> (r: u32)
        ensures
            r == self.spec_hz(),
    {
        match self {
            NotchFrequency::Freq50Hz => 50,
            NotchFrequency::Freq60Hz => 60,
        }
    }
}

impl SampleFrequency {
    pub open spec fn spec_hz(self) -> u32 {
        match self {
            SampleFrequency::Freq500Hz => 500,
            SampleFrequency::Freq1000Hz => 1000,
        }
    }

    /// The rate in hertz.
    pub fn hz(self) -> (r: u32)
        ensures
            r == self.spec_hz(),
    {
        match self {
            SampleFrequency::Freq500Hz => 500,
            SampleFrequency::Freq1000Hz => 1000,
        }
    }

    /// Row of the coefficient tables that holds this rate's coefficients.
    pub fn table_row(self) -> (r: usize)
        ensures
            r == (if self == SampleFrequency::Freq500Hz {
                0usize
            } else {
                1usize
            }),
    {
        match self {
            SampleFrequency::Freq500Hz => 0,
            SampleFrequency::Freq1000Hz => 1,
        }
    }
}

/// Whether the coefficient tables hold a design for this pair.
pub open spec fn is_supported(sample_freq: SampleFrequency, notch_freq: NotchFrequency) -> bool {
    (sample_freq.spec_hz() == 500 || sample_freq.spec_hz() == 1000) && (notch_freq.spec_hz() == 50
        || notch_freq.spec_hz() == 60)
}

/// One stage of the cascade.
#[derive(Clone, Copy, Debug, PartialEq, Eq, Structural)]
pub enum FilterStage {
    Notch,
    LowPass,
    HighPass,
}

/// Which stages run, and whether the chain is a bypass.
#[derive(Clone, Copy, Debug, PartialEq, Eq, Structural)]
pub struct FilterChainConfig {
    pub sample_freq: SampleFrequency,
    pub notch_freq: NotchFrequency,
    pub bypass_enabled: bool,
    pub notch_filter_enabled: bool,
    pub lowpass_filter_enabled: bool,
    pub highpass_filter_enabled: bool,
}

/// The stages that run on each sample, in order.
pub open spec fn stages_of(c: FilterChainConfig) -> Seq<FilterStage> {
    if c.bypass_enabled {
        seq![]
    } else {
        (if c.notch_filter_enabled {
            seq![FilterStage::Notch]
        } else {
            seq![]
        }) + (if c.lowpass_filter_enabled {
            seq![FilterStage::LowPass]
        } else {
            seq![]
        }) + (if c.highpass_filter_enabled {
            seq![FilterStage::HighPass]
        } else {
            seq![]
        })
    }
}

impl FilterChainConfig {
    pub fn new(
        sample_freq: SampleFrequency,
        notch_freq: NotchFrequency,
        enable_notch_filter: bool,
        enable_lowpass_filter: bool,
        enable_highpass_filter: bool,
    ) -> (r: FilterChainConfig)
        ensures
            r == (FilterChainConfig {
                sample_freq,
                notch_freq,
                bypass_enabled: !is_supported(sample_freq, notch_freq),
                notch_filter_enabled: enable_notch_filter,
                lowpass_filter_enabled: enable_lowpass_filter,
                highpass_filter_enabled: enable_highpass_filter,
            }),
    {
        let s = sample_freq.hz();
        let n = notch_freq.hz();
        let bypass_enabled = !((s == 500 || s == 1000) && (n == 50 || n == 60));
        FilterChainConfig {
            sample_freq,
            notch_freq,
            bypass_enabled,
            notch_filter_enabled: enable_notch_filter,
            lowpass_filter_enabled: enable_lowpass_filter,
            highpass_filter_enabled: enable_highpass_filter,
        }
    }

    /// The stages to apply to each sample, in order: notch, low-pass,
    /// high-pass, each if enabled; none at all for a bypass.
    pub fn stages(&self) -> (r: Vec<FilterStage>)
        ensures
            r@ == stages_of(*self),
    {
        let mut r: Vec<FilterStage> = Vec::new();
        if self.bypass_enabled {
            return r;
        }
        if self.notch_filter_enabled {
            r.push(FilterStage::Notch);
        }
        if self.lowpass_filter_enabled {
            r.push(FilterStage::LowPass);
        }
        if self.highpass_filter_enabled {
            r.push(FilterStage::HighPass);
        }
        assert(r@ =~= stages_of(*self));
        r
    }
}

} // verus!
