//! The hardware handle: duty conversions and the typed driver operations.

use crate::error::IoError;
use crate::sys::ioctl::{Command, Op, Outcome};
use crate::sys::UW_MAX_FAN_SPEED;
use vstd::prelude::*;

verus! {

/// Path of the privileged device node the driver offers.
pub const DEVICE_NODE: &'static str = "/dev/tuxedo_io";

/// What the driver answers to the hardware check on hardware it supports.
pub const HARDWARE_COMPATIBLE: i32 = 1;

/// The ceiling of the percentage scale: the duty of a fan at full speed.
pub const MAX_DUTY: u8 = 100;

/// One of the two fans of the embedded controller.
#[derive(Clone, Copy, Debug, PartialEq, Eq)]
pub enum Fan {
    Fan1,
    Fan2,
}

/// An open device node whose hardware check has passed.
///
/// The handle stands for the descriptor: it says which ioctl each typed
/// operation is, and the functions `duty_reading` and `acknowledged` say
/// what the driver's answer means.
#[derive(Debug, PartialEq, Eq)]
pub struct TuxedoIo {
    fd: i32,
}

/// `num / den` rounded to the nearest integer, halves rounded up.
pub open spec fn rounded_div(num: int, den: int) -> int {
    (2 * num + den) / (2 * den)
}

/// The value of a `u8` nearest to `x`.
pub open spec fn saturate_u8(x: int) -> int {
    if x < 0 {
        0
    } else if x > 255 {
        255
    } else {
        x
    }
}

/// The percentage that stands for a raw driver speed.
pub open spec fn speed_as_percentage(speed: int) -> int {
    saturate_u8(rounded_div(speed * 100, UW_MAX_FAN_SPEED as int))
}

/// The raw driver speed that stands for a percentage.
pub open spec fn percentage_as_speed(percentage: int) -> int {
    saturate_u8(rounded_div(UW_MAX_FAN_SPEED * percentage, 100))
}

/// Converts a raw driver speed to a percentage of the maximum speed, rounded
/// to the nearest percent and held within `u8`.
pub fn speed_to_percentage(speed: i32) -> (percentage: u8)
    ensures
        percentage as int == speed_as_percentage(speed as int),
{
    if speed <= 0 {
        return 0;
    }
    let max: i64 = UW_MAX_FAN_SPEED as i64;
    let rounded: i64 = (2 * (speed as i64 * 100) + max) / (2 * max);
    if rounded > 255 {
        255
    } else {
        rounded as u8
    }
}

/// Converts a percentage to the raw speed the driver takes, rounded to the
/// nearest unit and held within `u8`.
pub fn percentage_to_speed(percentage: u8) -> (speed: u8)
    ensures
        speed as int == percentage_as_speed(percentage as int),
{
    let max: i64 = UW_MAX_FAN_SPEED as i64;
    assert(max == 200);
    let rounded: i64 = (2 * (max * percentage as i64) + 100) / (2 * 100);
    if rounded > 255 {
        255
    } else {
        rounded as u8
    }
}

impl Fan {
    /// The fan whose speed `op` reads or sets, if it is such an operation.
    pub open spec fn addressed_by(op: Op) -> Option<Fan> {
        match op {
            Op::ReadFanSpeed1 | Op::WriteFanSpeed1 => Some(Fan::Fan1),
            Op::ReadFanSpeed2 | Op::WriteFanSpeed2 => Some(Fan::Fan2),
            _ => None,
        }
    }

    /// The operation that reads the fan's speed.
    pub open spec fn speed_read_op(self) -> Op {
        match self {
            Fan::Fan1 => Op::ReadFanSpeed1,
            Fan::Fan2 => Op::ReadFanSpeed2,
        }
    }

    /// The operation that sets the fan's speed.
    pub open spec fn speed_write_op(self) -> Op {
        match self {
            Fan::Fan1 => Op::WriteFanSpeed1,
            Fan::Fan2 => Op::WriteFanSpeed2,
        }
    }
}

impl View for TuxedoIo {
    type V = i32;

    /// The descriptor the handle stands for.
    closed spec fn view(&self) -> i32 {
        self.fd
    }
}

impl TuxedoIo {
    /// The ioctl that asks the driver whether it supports the hardware.
    pub open spec fn check_command(fd: i32) -> Command {
        Command::ReadInt { fd, op: Op::HwCheck }
    }

    /// The ioctl that reads the lowest speed recommended for all fans.
    pub open spec fn min_speed_command(fd: i32) -> Command {
        Command::ReadInt { fd, op: Op::ReadFansMinSpeed }
    }

    /// The ioctl that reads the speed of `fan`.
    pub open spec fn speed_command(fd: i32, fan: Fan) -> Command {
        Command::ReadInt { fd, op: fan.speed_read_op() }
    }

    /// The ioctl that sets `fan` to `percentage` of its maximum speed.
    pub open spec fn set_speed_command(fd: i32, fan: Fan, percentage: u8) -> Command {
        Command::WriteInt {
            fd,
            op: fan.speed_write_op(),
            value: percentage_as_speed(percentage as int) as i32,
        }
    }

    /// The ioctl that hands both fans back to the firmware.
    pub open spec fn auto_command(fd: i32) -> Command {
        Command::Signal { fd, op: Op::WriteFanAuto }
    }

    /// The command that asks the driver, on a freshly opened descriptor,
    /// whether it supports the hardware.
    pub fn hardware_check(fd: i32) -> (command: Command)
        ensures
            command == Self::check_command(fd),
    {
        Command::ReadInt { fd, op: Op::HwCheck }
    }

    /// Makes the handle for the descriptor `fd` from the outcome of its
    /// hardware check: the check has to have answered `HARDWARE_COMPATIBLE`.
    pub fn open(fd: i32, check: Outcome) -> (handle: Result<TuxedoIo, IoError>)
        ensures
            match hardware_checked(check) {
                Ok(()) => handle is Ok && handle->Ok_0@ == fd,
                Err(error) => handle == Err::<TuxedoIo, IoError>(error),
            },
    {
        match check {
            Ok(code) => if code == HARDWARE_COMPATIBLE {
                Ok(TuxedoIo { fd })
            } else {
                Err(IoError::HardwareUnsupported)
            },
            Err(errno) => Err(IoError::DriverError(errno)),
        }
    }

    /// The descriptor the handle stands for.
    pub fn descriptor(&self) -> (fd: i32)
        ensures
            fd == self@,
    {
        self.fd
    }

    /// The command that reads the lowest speed recommended for all fans;
    /// `duty_reading` gives the percentage.
    pub fn get_fan_min_speed(&self) -> (command: Command)
        ensures
            command == Self::min_speed_command(self@),
    {
        Command::ReadInt { fd: self.fd, op: Op::ReadFansMinSpeed }
    }

    /// The highest speed of all fans, as a percentage. The driver has no
    /// operation for it: it is the ceiling of the percentage scale.
    pub fn get_fan_max_speed(&self) -> (percentage: u8)
        ensures
            percentage == MAX_DUTY,
    {
        MAX_DUTY
    }

    /// The command that reads the current speed of `fan`; `duty_reading`
    /// gives the percentage.
    pub fn get_fan_speed(&self, fan: Fan) -> (command: Command)
        ensures
            command == Self::speed_command(self@, fan),
    {
        match fan {
            Fan::Fan1 => Command::ReadInt { fd: self.fd, op: Op::ReadFanSpeed1 },
            Fan::Fan2 => Command::ReadInt { fd: self.fd, op: Op::ReadFanSpeed2 },
        }
    }

    /// The command that sets `fan` to `percentage` of its maximum speed. The
    /// driver does not return from it until the fan has reached that speed.
    pub fn set_fan_speed(&self, fan: Fan, percentage: u8) -> (command: Command)
        ensures
            command == Self::set_speed_command(self@, fan, percentage),
    {
        let value: i32 = percentage_to_speed(percentage) as i32;
        match fan {
            Fan::Fan1 => Command::WriteInt { fd: self.fd, op: Op::WriteFanSpeed1, value },
            Fan::Fan2 => Command::WriteInt { fd: self.fd, op: Op::WriteFanSpeed2, value },
        }
    }

    /// The command that hands both fans back to the firmware.
    pub fn set_fans_auto(&self) -> (command: Command)
        ensures
            command == Self::auto_command(self@),
    {
        Command::Signal { fd: self.fd, op: Op::WriteFanAuto }
    }
}

/// What the outcome of the hardware check means: the hardware is supported
/// where the driver answered `HARDWARE_COMPATIBLE`.
pub open spec fn hardware_checked(check: Outcome) -> Result<(), IoError> {
    match check {
        Ok(code) => if code == HARDWARE_COMPATIBLE {
            Ok(())
        } else {
            Err(IoError::HardwareUnsupported)
        },
        Err(errno) => Err(IoError::DriverError(errno)),
    }
}

/// What the outcome of a speed read means: the speed as a percentage, or the
/// driver's error.
pub open spec fn spec_duty_reading(outcome: Outcome) -> Result<u8, IoError> {
    match outcome {
        Ok(speed) => Ok(speed_as_percentage(speed as int) as u8),
        Err(errno) => Err(IoError::DriverError(errno)),
    }
}

/// What the outcome of a write or a signal means: done, or the driver's
/// error.
pub open spec fn spec_acknowledged(outcome: Outcome) -> Result<(), IoError> {
    match outcome {
        Ok(_) => Ok(()),
        Err(errno) => Err(IoError::DriverError(errno)),
    }
}

#[verifier::when_used_as_spec(spec_duty_reading)]
pub fn duty_reading(outcome: Outcome) -> (duty: Result<u8, IoError>)
    ensures
        duty == spec_duty_reading(outcome),
{
    match outcome {
        Ok(speed) => Ok(speed_to_percentage(speed)),
        Err(errno) => Err(IoError::DriverError(errno)),
    }
}

#[verifier::when_used_as_spec(spec_acknowledged)]
pub fn acknowledged(outcome: Outcome) -> (done: Result<(), IoError>)
    ensures
        done == spec_acknowledged(outcome),
{
    match outcome {
        Ok(_) => Ok(()),
        Err(errno) => Err(IoError::DriverError(errno)),
    }
}

/// `rounded_div` gives the integer nearest to the quotient, and the upper one
/// of two that are equally near.
pub proof fn lemma_rounded_div_is_nearest(num: int, den: int)
    requires
        den > 0,
    ensures
        2 * (den * rounded_div(num, den)) - den <= 2 * num,
        2 * num < 2 * (den * rounded_div(num, den)) + den,
{
    let q = rounded_div(num, den);
    vstd::arithmetic::div_mod::lemma_fundamental_div_mod(2 * num + den, 2 * den);
    vstd::arithmetic::div_mod::lemma_mod_bound(2 * num + den, 2 * den);
    assert((2 * den) * q == 2 * (den * q)) by (nonlinear_arith);
}

/// The two conversions with the driver's maximum written out: a percentage
/// is half the raw speed, rounded, and a raw speed twice the percentage.
pub proof fn lemma_conversions_with_maximum(x: int)
    ensures
        speed_as_percentage(x) == saturate_u8((200 * x + 200) / 400),
        percentage_as_speed(x) == saturate_u8((400 * x + 100) / 200),
{
    assert(UW_MAX_FAN_SPEED == 200);
    assert(UW_MAX_FAN_SPEED * x == 200 * x);
}

/// A percentage within the scale survives the way to the driver and back:
/// its raw speed is within the driver's range, and reading that speed gives
/// the percentage again, so that the two never differ by more than one.
pub proof fn lemma_percentage_round_trip(percentage: int)
    requires
        0 <= percentage <= MAX_DUTY,
    ensures
        0 <= percentage_as_speed(percentage) <= UW_MAX_FAN_SPEED,
        speed_as_percentage(percentage_as_speed(percentage)) == percentage,
        -1 <= speed_as_percentage(percentage_as_speed(percentage)) - percentage <= 1,
{
    lemma_conversions_with_maximum(percentage);
    lemma_conversions_with_maximum(percentage_as_speed(percentage));
}

/// A raw speed within the driver's range is read as a percentage within the
/// scale, and setting that percentage gives a raw speed at most one unit
/// away.
pub proof fn lemma_speed_round_trip(speed: int)
    requires
        0 <= speed <= UW_MAX_FAN_SPEED,
    ensures
        0 <= speed_as_percentage(speed) <= MAX_DUTY,
        -1 <= percentage_as_speed(speed_as_percentage(speed)) - speed <= 1,
{
    lemma_conversions_with_maximum(speed);
    lemma_conversions_with_maximum(speed_as_percentage(speed));
}

/// Both conversions keep the order of their arguments.
pub proof fn lemma_conversions_monotonic(low: int, high: int)
    requires
        low <= high,
    ensures
        speed_as_percentage(low) <= speed_as_percentage(high),
        percentage_as_speed(low) <= percentage_as_speed(high),
{
    lemma_conversions_with_maximum(low);
    lemma_conversions_with_maximum(high);
}

/// The driver's maximum speed is the ceiling of the percentage scale.
pub proof fn lemma_max_speed_is_max_duty()
    ensures
        speed_as_percentage(UW_MAX_FAN_SPEED as int) == MAX_DUTY,
        percentage_as_speed(MAX_DUTY as int) == UW_MAX_FAN_SPEED,
{
    lemma_conversions_with_maximum(UW_MAX_FAN_SPEED as int);
    lemma_conversions_with_maximum(MAX_DUTY as int);
}

/// Every command of the handle is made in the shape of its operation.
pub proof fn lemma_commands_are_well_formed(fd: i32, fan: Fan, percentage: u8)
    ensures
        TuxedoIo::check_command(fd).well_formed(),
        TuxedoIo::min_speed_command(fd).well_formed(),
        TuxedoIo::speed_command(fd, fan).well_formed(),
        TuxedoIo::set_speed_command(fd, fan, percentage).well_formed(),
        TuxedoIo::auto_command(fd).well_formed(),
{
}

/// Setting a fan and then reading it: the write and the read go to the same
/// fan on the same descriptor, and where the driver hands back the raw speed
/// it was given, the reading is the percentage that was asked for.
pub proof fn lemma_set_speed_reads_back(fd: i32, fan: Fan, percentage: u8)
    requires
        percentage <= MAX_DUTY,
    ensures
        ({
            let write = TuxedoIo::set_speed_command(fd, fan, percentage);
            let read = TuxedoIo::speed_command(fd, fan);
            &&& write.spec_fd() == read.spec_fd()
            &&& Fan::addressed_by(write.spec_op()) == Some(fan)
            &&& Fan::addressed_by(read.spec_op()) == Some(fan)
            &&& write matches Command::WriteInt { value, .. }
            &&& spec_duty_reading(Ok(value)) == Ok::<u8, IoError>(percentage)
        }),
{
    lemma_percentage_round_trip(percentage as int);
}

} // verus!
