//! Signal-processing and sensor-fusion core of an assistive controller driven by
//! an EEG headset and two muscle-activity electrodes.
//!
//! Everything here is verified: the EEG serial-frame parser, the contraction
//! detector, the filter-chain configuration, the ADC and DAC word codecs, the
//! bookkeeping of the sliding-spectrum analyzer, the bounded sample window, the
//! acquisition-task state machine and the fusion consumer. Floating-point
//! arithmetic and hardware access live with the caller.
pub mod acquisition;
pub mod eeg;
pub mod emg_filters;
pub mod emg_process;
pub mod flappy;
pub mod fusion;
pub mod myo;
pub mod sdft;
pub mod springboard;
pub mod window;
