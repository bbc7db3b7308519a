use tuxedo_infinitybook_gen10::error::IoError;
use tuxedo_infinitybook_gen10::sys::ioctl::{Command, Op};
use tuxedo_infinitybook_gen10::tuxedo_io::{
    acknowledged, duty_reading, Fan, TuxedoIo, DEVICE_NODE, HARDWARE_COMPATIBLE, MAX_DUTY,
};

fn handle_on(fd: i32) -> TuxedoIo {
    TuxedoIo::open(fd, Ok(HARDWARE_COMPATIBLE)).expect("the check passed")
}

#[test]
fn device_node_path() {
    assert_eq!(DEVICE_NODE, "/dev/tuxedo_io");
    assert_eq!(HARDWARE_COMPATIBLE, 1);
}

#[test]
fn hardware_check_is_a_read_on_the_fresh_descriptor() {
    assert_eq!(TuxedoIo::hardware_check(9), Command::ReadInt { fd: 9, op: Op::HwCheck });
}

#[test]
fn open_takes_the_compatible_answer() {
    let handle = TuxedoIo::open(7, Ok(1)).expect("the check passed");
    assert_eq!(handle.descriptor(), 7);
}

#[test]
fn open_refuses_any_other_answer() {
    for code in [0, 2, -1, 255, i32::MAX, i32::MIN] {
        assert_eq!(TuxedoIo::open(7, Ok(code)), Err(IoError::HardwareUnsupported));
    }
}

#[test]
fn open_hands_on_the_error_of_the_check() {
    assert_eq!(TuxedoIo::open(7, Err(25)), Err(IoError::DriverError(25)));
}

#[test]
fn max_speed_is_the_fixed_ceiling() {
    assert_eq!(handle_on(3).get_fan_max_speed(), 100);
    assert_eq!(handle_on(-1).get_fan_max_speed(), MAX_DUTY);
}

#[test]
fn commands_of_the_typed_operations() {
    let handle = handle_on(11);
    assert_eq!(
        handle.get_fan_min_speed(),
        Command::ReadInt { fd: 11, op: Op::ReadFansMinSpeed }
    );
    assert_eq!(
        handle.get_fan_speed(Fan::Fan1),
        Command::ReadInt { fd: 11, op: Op::ReadFanSpeed1 }
    );
    assert_eq!(
        handle.get_fan_speed(Fan::Fan2),
        Command::ReadInt { fd: 11, op: Op::ReadFanSpeed2 }
    );
    assert_eq!(handle.set_fans_auto(), Command::Signal { fd: 11, op: Op::WriteFanAuto });
}

#[test]
fn set_fan_speed_writes_the_raw_speed() {
    let handle = handle_on(4);
    assert_eq!(
        handle.set_fan_speed(Fan::Fan1, 50),
        Command::WriteInt { fd: 4, op: Op::WriteFanSpeed1, value: 100 }
    );
    assert_eq!(
        handle.set_fan_speed(Fan::Fan2, 100),
        Command::WriteInt { fd: 4, op: Op::WriteFanSpeed2, value: 200 }
    );
    assert_eq!(
        handle.set_fan_speed(Fan::Fan2, 0),
        Command::WriteInt { fd: 4, op: Op::WriteFanSpeed2, value: 0 }
    );
    assert_eq!(
        handle.set_fan_speed(Fan::Fan1, 255),
        Command::WriteInt { fd: 4, op: Op::WriteFanSpeed1, value: 255 }
    );
}

#[test]
fn duty_reading_converts_the_raw_speed() {
    assert_eq!(duty_reading(Ok(0)), Ok(0));
    assert_eq!(duty_reading(Ok(37)), Ok(19));
    assert_eq!(duty_reading(Ok(200)), Ok(100));
    assert_eq!(duty_reading(Ok(-3)), Ok(0));
    assert_eq!(duty_reading(Err(5)), Err(IoError::DriverError(5)));
}

#[test]
fn acknowledged_ignores_the_returned_value() {
    assert_eq!(acknowledged(Ok(0)), Ok(()));
    assert_eq!(acknowledged(Ok(-7)), Ok(()));
    assert_eq!(acknowledged(Err(4)), Err(IoError::DriverError(4)));
}

#[test]
fn set_then_get_gives_the_percentage_back() {
    let handle = handle_on(3);
    for fan in [Fan::Fan1, Fan::Fan2] {
        for percentage in 0..=MAX_DUTY {
            let written = match handle.set_fan_speed(fan, percentage) {
                Command::WriteInt { value, .. } => value,
                other => panic!("not a write: {:?}", other),
            };
            assert!(matches!(handle.get_fan_speed(fan), Command::ReadInt { fd: 3, .. }));
            assert_eq!(duty_reading(Ok(written)), Ok(percentage));
        }
    }
}
