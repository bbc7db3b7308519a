//! The device state manager: it owns the one handle slot and turns each
//! request into the sequence of actions on the device that answers it.
//!
//! The manager performs nothing itself. A request that needs the hardware
//! returns an [`Action`]; the host performs it and reports how it ended with
//! [`TuxedoService::resume`], which returns the next action, until the
//! action is [`Action::Finished`]. The host keeps the manager behind one lock
//! for the whole of a request, so that one ioctl is in flight at a time. A
//! request that needs no hardware is answered by a function that takes no
//! manager.

use crate::device::{channel_of, SpeedBounds};
use crate::error::{Capability, IoError};
use crate::service::model::{confirmed, Job, Running, ServiceState, Slot, Waiting};
use crate::sys::ioctl::{Command, Outcome};
use crate::tuxedo_io::{acknowledged, duty_reading, Fan, TuxedoIo};
use vstd::prelude::*;

pub mod laws;
pub mod model;

verus! {

/// Name under which the bridge answers a health request.
pub const SERVICE_ID: &'static str = "tuxedo-infinitybook-gen10";

/// Where a manager is in its life.
#[derive(Clone, Copy, Debug, PartialEq, Eq)]
pub enum Phase {
    /// No handle has been held yet.
    Uninitialized,
    /// A handle is held: the device node is open and the hardware check
    /// has passed.
    Active,
    /// The handle was given up, with the fans handed back to the firmware.
    /// The next request that needs the hardware opens a new one.
    ShutDown,
}

/// The answer to a request that succeeded.
#[derive(Clone, Copy, Debug, PartialEq, Eq)]
pub enum Reply {
    /// The bridge is up.
    Health,
    /// The duty bounds that both channels of the device offer.
    Devices(SpeedBounds),
    /// A handle is held.
    Initialized,
    /// No handle is held any more.
    ShutDown,
    /// The speed of both fans, in percent.
    Status { fan1: u8, fan2: u8 },
    /// The fans are back with the firmware.
    ChannelReset,
    /// Manual control starts with the next fixed duty.
    ManualControlEnabled,
    /// The fan has reached the duty that was asked for.
    DutyApplied,
}

/// What the host is to do next.
#[derive(Clone, Copy, Debug, PartialEq, Eq)]
pub enum Action {
    /// Open the device node for reading and writing; report the descriptor,
    /// or the error number.
    OpenDevice,
    /// Make this one ioctl; report its outcome.
    Perform(Command),
    /// Close the descriptor; report anything.
    CloseDevice { fd: i32 },
    /// Nothing: the request is answered.
    Finished(Result<Reply, IoError>),
    /// Nothing: the call does not fit what is in flight, and has changed
    /// nothing.
    Rejected,
}

/// The device state manager.
#[derive(Debug)]
pub struct TuxedoService {
    /// The handle slot.
    tuxedo_io: Option<TuxedoIo>,
    /// What is in flight on the handle; it counts while one is held.
    running: Running,
    /// What is in flight otherwise; it counts while none is held.
    waiting: Waiting,
    /// Whether a handle was ever given up.
    shut_down: bool,
}

impl View for TuxedoService {
    type V = ServiceState;

    closed spec fn view(&self) -> ServiceState {
        ServiceState {
            slot: match self.tuxedo_io {
                Some(handle) => Slot::Held { fd: handle@, running: self.running },
                None => Slot::Vacant(self.waiting),
            },
            shut_down: self.shut_down,
        }
    }
}

/// The duty a fixed-duty request asks for: the low eight bits of the number
/// it carries.
pub open spec fn requested_percentage(duty: u32) -> u8 {
    (duty % 256) as u8
}

impl TuxedoService {
    /// A manager that holds no handle; the first request that needs the
    /// hardware opens one.
    pub fn new() -> (service: TuxedoService)
        ensures
            service@ == ServiceState::initial(),
    {
        TuxedoService {
            tuxedo_io: None,
            running: Running::Idle,
            waiting: Waiting::Idle,
            shut_down: false,
        }
    }

    /// Where the manager is in its life.
    pub fn phase(&self) -> (phase: Phase)
        ensures
            phase == self@.phase(),
    {
        match &self.tuxedo_io {
            Some(_) => Phase::Active,
            None => if self.shut_down {
                Phase::ShutDown
            } else {
                Phase::Uninitialized
            },
        }
    }

    /// Whether nothing is in flight.
    pub fn is_idle(&self) -> (idle: bool)
        ensures
            idle == self@.is_idle(),
    {
        match &self.tuxedo_io {
            Some(_) => match self.running {
                Running::Idle => true,
                _ => false,
            },
            None => match self.waiting {
                Waiting::Idle => true,
                _ => false,
            },
        }
    }

    /// The first step of `job` on a handle.
    fn start(handle: &TuxedoIo, job: Job) -> (step: (Running, Action))
        ensures
            step == ServiceState::start(handle@, job),
    {
        match job {
            Job::Initialize => (Running::Idle, Action::Finished(Ok(Reply::Initialized))),
            Job::Enumerate => (
                Running::ReadingMinSpeed,
                Action::Perform(handle.get_fan_min_speed()),
            ),
            Job::Status => (Running::ReadingFan1, Action::Perform(handle.get_fan_speed(Fan::Fan1))),
            Job::Reset => (Running::Resetting, Action::Perform(handle.set_fans_auto())),
            Job::FixedDuty { fan, percentage } => (
                Running::Setting,
                Action::Perform(handle.set_fan_speed(fan, percentage)),
            ),
        }
    }

    /// Takes up a request that needs the hardware.
    fn begin(&mut self, job: Job) -> (action: Action)
        ensures
            (final(self)@, action) == old(self)@.begin(job),
    {
        match &self.tuxedo_io {
            Some(handle) => match self.running {
                Running::Idle => {
                    let (running, action) = Self::start(handle, job);
                    self.running = running;
                    action
                },
                _ => Action::Rejected,
            },
            None => match self.waiting {
                Waiting::Idle => {
                    self.waiting = Waiting::Opening { job };
                    Action::OpenDevice
                },
                _ => Action::Rejected,
            },
        }
    }

    /// Answers that the bridge is up. Needs neither the hardware nor a
    /// manager.
    pub fn health() -> (reply: Result<Reply, IoError>)
        ensures
            reply == Ok::<Reply, IoError>(Reply::Health),
    {
        Ok(Reply::Health)
    }

    /// Reads the duty bounds that the device's channels offer.
    pub fn list_devices(&mut self) -> (action: Action)
        ensures
            (final(self)@, action) == old(self)@.begin(Job::Enumerate),
    {
        self.begin(Job::Enumerate)
    }

    /// Makes sure a handle is held.
    pub fn initialize_device(&mut self) -> (action: Action)
        ensures
            (final(self)@, action) == old(self)@.begin(Job::Initialize),
    {
        self.begin(Job::Initialize)
    }

    /// Gives up the handle, if one is held: the fans go back to the firmware
    /// first, and the descriptor is closed whether or not that succeeded.
    pub fn shutdown(&mut self) -> (action: Action)
        ensures
            (final(self)@, action) == old(self)@.shutdown(),
    {
        match &self.tuxedo_io {
            Some(handle) => match self.running {
                Running::Idle => {
                    let command = handle.set_fans_auto();
                    self.running = Running::Releasing { quiet: false };
                    Action::Perform(command)
                },
                _ => Action::Rejected,
            },
            None => match self.waiting {
                Waiting::Idle => Action::Finished(Ok(Reply::ShutDown)),
                _ => Action::Rejected,
            },
        }
    }

    /// Reads the speed of both fans.
    pub fn status(&mut self) -> (action: Action)
        ensures
            (final(self)@, action) == old(self)@.begin(Job::Status),
    {
        self.begin(Job::Status)
    }

    /// Hands the fans back to the firmware; the driver knows no way to do so
    /// for one fan alone.
    pub fn reset_channel(&mut self) -> (action: Action)
        ensures
            (final(self)@, action) == old(self)@.begin(Job::Reset),
    {
        self.begin(Job::Reset)
    }

    /// Acknowledges the wish for manual control, which starts by itself with
    /// the next fixed duty. Needs neither the hardware nor a manager.
    pub fn enable_manual_fan_control() -> (reply: Result<Reply, IoError>)
        ensures
            reply == Ok::<Reply, IoError>(Reply::ManualControlEnabled),
    {
        Ok(Reply::ManualControlEnabled)
    }

    /// Sets the fan that `channel_id` names to a fixed duty. An identifier
    /// that names no fan is turned down before anything else happens.
    pub fn fixed_duty(&mut self, channel_id: &str, duty: u32) -> (action: Action)
        ensures
            match channel_of(channel_id@) {
                Some(fan) => (final(self)@, action) == old(self)@.begin(
                    Job::FixedDuty { fan, percentage: requested_percentage(duty) },
                ),
                None => final(self)@ == old(self)@ && action == Action::Finished(
                    Err(IoError::InvalidChannel),
                ),
            },
    {
        match Fan::from_channel_id(channel_id) {
            Some(fan) => {
                let percentage: u8 = (duty % 256) as u8;
                self.begin(Job::FixedDuty { fan, percentage })
            },
            None => Action::Finished(Err(IoError::InvalidChannel)),
        }
    }

    /// Turns down a speed profile: the firmware has none. Needs neither the
    /// hardware nor a manager, and so opens no handle.
    pub fn speed_profile() -> (reply: Result<Reply, IoError>)
        ensures
            reply == Err::<Reply, IoError>(
                IoError::UnsupportedCapability(Capability::SpeedProfile),
            ),
    {
        Err(IoError::UnsupportedCapability(Capability::SpeedProfile))
    }

    /// Turns down a lighting mode: the device has no lighting. Needs neither
    /// the hardware nor a manager, and so opens no handle.
    pub fn lighting() -> (reply: Result<Reply, IoError>)
        ensures
            reply == Err::<Reply, IoError>(IoError::UnsupportedCapability(Capability::Lighting)),
    {
        Err(IoError::UnsupportedCapability(Capability::Lighting))
    }

    /// Turns down an LCD mode: the device has no LCD. Needs neither the
    /// hardware nor a manager, and so opens no handle.
    pub fn lcd() -> (reply: Result<Reply, IoError>)
        ensures
            reply == Err::<Reply, IoError>(IoError::UnsupportedCapability(Capability::Lcd)),
    {
        Err(IoError::UnsupportedCapability(Capability::Lcd))
    }

    /// Turns down the custom function: the device has none. Needs neither
    /// the hardware nor a manager, and so opens no handle.
    pub fn custom_function_one() -> (reply: Result<Reply, IoError>)
        ensures
            reply == Err::<Reply, IoError>(
                IoError::UnsupportedCapability(Capability::CustomFunctionOne),
            ),
    {
        Err(IoError::UnsupportedCapability(Capability::CustomFunctionOne))
    }

    /// Takes the outcome of the action that was handed out last, and gives
    /// the next one.
    pub fn resume(&mut self, outcome: Outcome) -> (action: Action)
        ensures
            (final(self)@, action) == old(self)@.resume(outcome),
    {
        match &self.tuxedo_io {
            Some(handle) => match self.running {
                Running::Idle => Action::Rejected,
                Running::ReadingMinSpeed => {
                    let reply = match duty_reading(outcome) {
                        Ok(min_duty) => Ok(
                            Reply::Devices(
                                SpeedBounds { min_duty, max_duty: handle.get_fan_max_speed() },
                            ),
                        ),
                        Err(error) => Err(error),
                    };
                    self.running = Running::Idle;
                    Action::Finished(reply)
                },
                Running::ReadingFan1 => match duty_reading(outcome) {
                    Ok(fan1) => {
                        let command = handle.get_fan_speed(Fan::Fan2);
                        self.running = Running::ReadingFan2 { fan1 };
                        Action::Perform(command)
                    },
                    Err(error) => {
                        self.running = Running::Idle;
                        Action::Finished(Err(error))
                    },
                },
                Running::ReadingFan2 { fan1 } => {
                    self.running = Running::Idle;
                    Action::Finished(
                        match duty_reading(outcome) {
                            Ok(fan2) => Ok(Reply::Status { fan1, fan2 }),
                            Err(error) => Err(error),
                        },
                    )
                },
                Running::Resetting => {
                    self.running = Running::Idle;
                    Action::Finished(Self::confirm(Reply::ChannelReset, outcome))
                },
                Running::Setting => {
                    self.running = Running::Idle;
                    Action::Finished(Self::confirm(Reply::DutyApplied, outcome))
                },
                Running::Releasing { quiet } => {
                    let fd = handle.descriptor();
                    let result = if quiet {
                        Ok(Reply::ShutDown)
                    } else {
                        Self::confirm(Reply::ShutDown, outcome)
                    };
                    self.tuxedo_io = None;
                    self.running = Running::Idle;
                    self.waiting = Waiting::Closing { fd, result };
                    self.shut_down = true;
                    Action::CloseDevice { fd }
                },
            },
            None => match self.waiting {
                Waiting::Idle => Action::Rejected,
                Waiting::Opening { job } => match outcome {
                    Ok(fd) => {
                        self.waiting = Waiting::Checking { fd, job };
                        Action::Perform(TuxedoIo::hardware_check(fd))
                    },
                    Err(errno) => {
                        self.waiting = Waiting::Idle;
                        Action::Finished(Err(IoError::DeviceUnavailable(errno)))
                    },
                },
                Waiting::Checking { fd, job } => match TuxedoIo::open(fd, outcome) {
                    Ok(handle) => {
                        let (running, action) = Self::start(&handle, job);
                        self.tuxedo_io = Some(handle);
                        self.running = running;
                        self.waiting = Waiting::Idle;
                        action
                    },
                    Err(error) => {
                        self.waiting = Waiting::Closing { fd, result: Err(error) };
                        Action::CloseDevice { fd }
                    },
                },
                Waiting::Closing { result, .. } => {
                    self.waiting = Waiting::Idle;
                    Action::Finished(result)
                },
            },
        }
    }

    /// Gives up whatever the manager holds, for a manager that is about to
    /// be destroyed: anything in flight is dropped, the fans of a held
    /// handle go back to the firmware, and the descriptor is closed. A
    /// failure is told to nobody. The host sees the actions through with
    /// `resume`, as for a request.
    pub fn teardown(&mut self) -> (action: Action)
        ensures
            (final(self)@, action) == old(self)@.teardown(),
    {
        match &self.tuxedo_io {
            Some(handle) => {
                let command = handle.set_fans_auto();
                self.running = Running::Releasing { quiet: true };
                Action::Perform(command)
            },
            None => match self.waiting {
                Waiting::Checking { fd, .. } => {
                    self.waiting = Waiting::Closing { fd, result: Ok(Reply::ShutDown) };
                    Action::CloseDevice { fd }
                },
                _ => {
                    self.waiting = Waiting::Idle;
                    Action::Finished(Ok(Reply::ShutDown))
                },
            },
        }
    }

    /// The answer to a write or a signal that ended with `outcome`.
    fn confirm(reply: Reply, outcome: Outcome) -> (result: Result<Reply, IoError>)
        ensures
            result == confirmed(reply, outcome),
    {
        match acknowledged(outcome) {
            Ok(()) => Ok(reply),
            Err(error) => Err(error),
        }
    }
}

} // verus!
