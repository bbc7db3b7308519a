use tuxedo_infinitybook_gen10::device::{
    ChannelInfo, DeviceDescriptor, SpeedBounds, DEFAULT_DISPLAY_NAME, DEVICE_ID, FAN_1_CHANNEL_ID,
    FAN_2_CHANNEL_ID,
};
use tuxedo_infinitybook_gen10::tuxedo_io::Fan;

#[test]
fn channel_identifiers() {
    assert_eq!(FAN_1_CHANNEL_ID, "fan1");
    assert_eq!(FAN_2_CHANNEL_ID, "fan2");
    assert_eq!(Fan::Fan1.channel_id(), "fan1");
    assert_eq!(Fan::Fan2.channel_id(), "fan2");
    assert_eq!(Fan::Fan1.label(), "Fan 1");
    assert_eq!(Fan::Fan2.label(), "Fan 2");
}

#[test]
fn channel_identifier_names_its_fan() {
    assert_eq!(Fan::from_channel_id("fan1"), Some(Fan::Fan1));
    assert_eq!(Fan::from_channel_id("fan2"), Some(Fan::Fan2));
    for fan in [Fan::Fan1, Fan::Fan2] {
        assert_eq!(Fan::from_channel_id(fan.channel_id()), Some(fan));
    }
}

#[test]
fn unknown_channel_identifier_names_no_fan() {
    for id in [
        "", "fan", "fan0", "fan3", "fan11", "Fan1", "FAN1", " fan1", "fan1 ", "fän1", "fän", "gan1",
        "f\u{e4}n", "pump",
    ] {
        assert_eq!(Fan::from_channel_id(id), None);
    }
}

#[test]
fn descriptor_of_a_named_machine() {
    let bounds = SpeedBounds { min_duty: 13, max_duty: 100 };
    let device = DeviceDescriptor::new(Some(String::from("InfinityBook Pro 14")), bounds);
    assert_eq!(device.id(), "tuxedo");
    assert_eq!(device.id(), DEVICE_ID);
    assert_eq!(device.display_name(), "InfinityBook Pro 14");
    assert_eq!(
        device.channels(),
        &vec![
            ChannelInfo { fan: Fan::Fan1, min_duty: 13, max_duty: 100, fixed_enabled: true },
            ChannelInfo { fan: Fan::Fan2, min_duty: 13, max_duty: 100, fixed_enabled: true },
        ]
    );
}

#[test]
fn descriptor_of_an_unnamed_machine() {
    let device = DeviceDescriptor::new(None, SpeedBounds { min_duty: 0, max_duty: 100 });
    assert_eq!(DEFAULT_DISPLAY_NAME, "TUXEDO InfinityBook Gen10");
    assert_eq!(device.display_name(), "TUXEDO InfinityBook Gen10");
    assert_eq!(device.channels().len(), 2);
}

#[test]
fn descriptor_keeps_an_empty_name() {
    let device = DeviceDescriptor::new(Some(String::new()), SpeedBounds { min_duty: 0, max_duty: 100 });
    assert_eq!(device.display_name(), "");
}

#[test]
fn descriptor_has_one_channel_per_fan() {
    let device = DeviceDescriptor::new(None, SpeedBounds { min_duty: 25, max_duty: 100 });
    let channels = device.channels();
    assert_eq!(channels[0].fan, Fan::Fan1);
    assert_eq!(channels[1].fan, Fan::Fan2);
    assert_ne!(channels[0].fan, channels[1].fan);
    assert!(channels.iter().all(|channel| channel.fixed_enabled));
}
