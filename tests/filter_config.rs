use wfpi::emg_filters::{FilterChainConfig, FilterStage, NotchFrequency, SampleFrequency};
use wfpi::emg_process::{highpass_window_length, lowpass_window_length};

#[test]
fn full_chain_runs_in_order() {
    let c = FilterChainConfig::new(
        SampleFrequency::Freq1000Hz,
        NotchFrequency::Freq60Hz,
        true,
        true,
        true,
    );
    assert!(!c.bypass_enabled);
    assert_eq!(c.stages(), vec![FilterStage::Notch, FilterStage::LowPass, FilterStage::HighPass]);
}

#[test]
fn disabled_stages_are_skipped() {
    let c = FilterChainConfig::new(
        SampleFrequency::Freq500Hz,
        NotchFrequency::Freq50Hz,
        false,
        true,
        false,
    );
    assert_eq!(c.stages(), vec![FilterStage::LowPass]);
}

#[test]
fn frequencies_and_rows() {
    assert_eq!(SampleFrequency::Freq500Hz.hz(), 500);
    assert_eq!(SampleFrequency::Freq1000Hz.hz(), 1000);
    assert_eq!(NotchFrequency::Freq50Hz.hz(), 50);
    assert_eq!(NotchFrequency::Freq60Hz.hz(), 60);
    assert_eq!(SampleFrequency::Freq500Hz.table_row(), 0);
    assert_eq!(SampleFrequency::Freq1000Hz.table_row(), 1);
}

#[test]
fn smoothing_window_lengths() {
    assert_eq!(lowpass_window_length(1000, 150), 1);
    assert_eq!(lowpass_window_length(4000, 50), 10);
    assert_eq!(highpass_window_length(1000, 20), 100);
}
