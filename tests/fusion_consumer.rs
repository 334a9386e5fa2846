use wfpi::fusion::{
    attention_to_trigger, bounds, clamp_attention, percent_to_trigger, ActuatorCommand,
    Collector, ConsumerAction, DeviceSignal, HISTORY_CAPACITY,
};

#[test]
fn attention_drives_trigger_end_to_end() {
    let mut c = Collector::new();
    assert_eq!(
        c.handle_signal(DeviceSignal::Eeg(10, 0, 0)),
        ConsumerAction::Actuate(ActuatorCommand::SetTrigger(0))
    );
    assert_eq!(c.trigger(), 0);
    assert_eq!(
        c.handle_signal(DeviceSignal::Eeg(90, 0, 0)),
        ConsumerAction::Actuate(ActuatorCommand::SetTrigger(4095))
    );
    assert_eq!(c.trigger(), 4095);
    assert_eq!(c.tick(), 2);
}

#[test]
fn attention_mapping_values() {
    assert_eq!(clamp_attention(10), 20);
    assert_eq!(clamp_attention(90), 80);
    assert_eq!(clamp_attention(55), 55);
    assert_eq!(attention_to_trigger(20), 0);
    assert_eq!(attention_to_trigger(21), 68);
    assert_eq!(attention_to_trigger(50), 2047);
    assert_eq!(attention_to_trigger(80), 4095);
    assert_eq!(attention_to_trigger(255), 4095);
    assert_eq!(percent_to_trigger(100), 4095);
    assert_eq!(percent_to_trigger(50), 2047);
    assert_eq!(percent_to_trigger(0), 0);
}

#[test]
fn muscle_signals_drive_buttons() {
    let mut c = Collector::new();
    assert_eq!(
        c.handle_signal(DeviceSignal::Myo1(true, 12)),
        ConsumerAction::Actuate(ActuatorCommand::SetLeftButton(true))
    );
    assert_eq!(
        c.handle_signal(DeviceSignal::Myo2(true, -4)),
        ConsumerAction::Actuate(ActuatorCommand::SetRightButton(true))
    );
    assert!(c.left_pressed() && c.right_pressed());
    assert_eq!(c.left_history()[0].value, 12);
    assert_eq!(c.right_history()[0].tick, 1);
}

#[test]
fn keyboard_override() {
    let mut c = Collector::new();
    assert_eq!(c.handle_key('z'), ConsumerAction::Idle);
    assert!(!c.left_pressed());
    assert_eq!(c.handle_key('m'), ConsumerAction::Idle);
    assert!(c.override_output());
    assert_eq!(
        c.handle_key('z'),
        ConsumerAction::Actuate(ActuatorCommand::SetLeftButton(true))
    );
    assert_eq!(
        c.handle_key('v'),
        ConsumerAction::Actuate(ActuatorCommand::SetRightButton(false))
    );
    assert_eq!(
        c.handle_key('b'),
        ConsumerAction::Actuate(ActuatorCommand::SetTrigger(4095))
    );
    assert_eq!(c.handle_signal(DeviceSignal::Eeg(20, 1, 2)), ConsumerAction::Idle);
    assert_eq!(c.trigger(), 4095);
    assert_eq!(c.eeg_history().len(), 1);
    assert_eq!(c.handle_key('n'), ConsumerAction::Actuate(ActuatorCommand::SetTrigger(0)));
    assert_eq!(c.handle_key('k'), ConsumerAction::Idle);
    assert_eq!(c.handle_key('q'), ConsumerAction::Quit);
}

#[test]
fn histories_are_bounded() {
    let mut c = Collector::new();
    for i in 0..250 {
        c.handle_signal(DeviceSignal::Myo1(false, i));
    }
    assert_eq!(c.left_history().len(), HISTORY_CAPACITY);
    assert_eq!(c.left_history()[0].tick, 50);
    assert_eq!(c.left_history()[199].value, 249);
    assert!(c.eeg_history().is_empty());
}

#[test]
fn bounds_of_values() {
    assert_eq!(bounds(&[3, -2, 7]), Some((-2, 7)));
    assert_eq!(bounds(&[5]), Some((5, 5)));
    assert_eq!(bounds(&[]), None);
}
