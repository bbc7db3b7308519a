//! The device state manager as a transition system over plain values.
//!
//! A state says whether a handle is held and what is in flight; an input is
//! a request, the outcome of the action that was handed out last, or the
//! teardown. `ServiceState::step` gives the next state and the next action.

use crate::device::SpeedBounds;
use crate::error::IoError;
use crate::service::{Action, Phase, Reply};
use crate::sys::ioctl::Outcome;
use crate::tuxedo_io::{
    hardware_checked, spec_acknowledged, spec_duty_reading, Fan, TuxedoIo, MAX_DUTY,
};
use vstd::prelude::*;

verus! {

/// A request that needs the hardware.
#[derive(Clone, Copy, Debug, PartialEq, Eq)]
pub enum Job {
    /// Hold a handle, and nothing more.
    Initialize,
    /// Read the duty bounds of the fans.
    Enumerate,
    /// Read the speed of both fans.
    Status,
    /// Hand the fans back to the firmware.
    Reset,
    /// Set one fan to a fixed duty.
    FixedDuty { fan: Fan, percentage: u8 },
}

/// What is in flight while no handle is held.
#[derive(Clone, Copy, Debug, PartialEq, Eq)]
pub enum Waiting {
    /// Nothing.
    Idle,
    /// The device node is being opened for `job`.
    Opening { job: Job },
    /// The hardware check runs on the fresh descriptor `fd`.
    Checking { fd: i32, job: Job },
    /// The descriptor `fd` is being closed; `result` is answered after.
    Closing { fd: i32, result: Result<Reply, IoError> },
}

/// What is in flight on the held handle.
#[derive(Clone, Copy, Debug, PartialEq, Eq)]
pub enum Running {
    /// Nothing.
    Idle,
    /// The read of the lowest recommended speed.
    ReadingMinSpeed,
    /// The read of the first fan's speed.
    ReadingFan1,
    /// The read of the second fan's speed; the first fan ran at `fan1`.
    ReadingFan2 { fan1: u8 },
    /// The signal that hands the fans back to the firmware.
    Resetting,
    /// The write of a fan's speed.
    Setting,
    /// The signal that hands the fans back before the handle is given up;
    /// `quiet` where nobody is left to hear of a failure.
    Releasing { quiet: bool },
}

/// The handle slot.
pub enum Slot {
    /// No handle is held.
    Vacant(Waiting),
    /// The handle for the descriptor `fd` is held.
    Held { fd: i32, running: Running },
}

/// The state of the manager.
pub struct ServiceState {
    pub slot: Slot,
    /// Whether a handle was ever given up.
    pub shut_down: bool,
}

/// What can happen to the manager.
pub enum Input {
    /// A request that needs the hardware arrives.
    Begin(Job),
    /// The request to shut down arrives.
    Shutdown,
    /// The action that was handed out last has been performed.
    Resume(Outcome),
    /// The manager is about to be destroyed.
    Teardown,
}

/// What is answered to the shutdown whose signal ended with `outcome`.
pub open spec fn released(quiet: bool, outcome: Outcome) -> Result<Reply, IoError> {
    if quiet {
        Ok(Reply::ShutDown)
    } else {
        match spec_acknowledged(outcome) {
            Ok(()) => Ok(Reply::ShutDown),
            Err(error) => Err(error),
        }
    }
}

/// What is answered to the enumeration whose read ended with `outcome`.
pub open spec fn enumerated(outcome: Outcome) -> Result<Reply, IoError> {
    match spec_duty_reading(outcome) {
        Ok(min_duty) => Ok(Reply::Devices(SpeedBounds { min_duty, max_duty: MAX_DUTY })),
        Err(error) => Err(error),
    }
}

/// What is answered to a write or a signal that ended with `outcome`.
pub open spec fn confirmed(reply: Reply, outcome: Outcome) -> Result<Reply, IoError> {
    match spec_acknowledged(outcome) {
        Ok(()) => Ok(reply),
        Err(error) => Err(error),
    }
}

impl ServiceState {
    /// The state of a fresh manager.
    pub open spec fn initial() -> ServiceState {
        ServiceState { slot: Slot::Vacant(Waiting::Idle), shut_down: false }
    }

    /// The same state with another slot.
    pub open spec fn with(self, slot: Slot) -> ServiceState {
        ServiceState { slot, shut_down: self.shut_down }
    }

    /// Where the manager is in its life.
    pub open spec fn phase(self) -> Phase {
        match self.slot {
            Slot::Held { .. } => Phase::Active,
            Slot::Vacant(_) => if self.shut_down {
                Phase::ShutDown
            } else {
                Phase::Uninitialized
            },
        }
    }

    /// Whether nothing is in flight.
    pub open spec fn is_idle(self) -> bool {
        match self.slot {
            Slot::Vacant(waiting) => waiting is Idle,
            Slot::Held { running, .. } => running is Idle,
        }
    }

    /// The first step of `job` on the handle for `fd`.
    pub open spec fn start(fd: i32, job: Job) -> (Running, Action) {
        match job {
            Job::Initialize => (Running::Idle, Action::Finished(Ok(Reply::Initialized))),
            Job::Enumerate => (
                Running::ReadingMinSpeed,
                Action::Perform(TuxedoIo::min_speed_command(fd)),
            ),
            Job::Status => (
                Running::ReadingFan1,
                Action::Perform(TuxedoIo::speed_command(fd, Fan::Fan1)),
            ),
            Job::Reset => (Running::Resetting, Action::Perform(TuxedoIo::auto_command(fd))),
            Job::FixedDuty { fan, percentage } => (
                Running::Setting,
                Action::Perform(TuxedoIo::set_speed_command(fd, fan, percentage)),
            ),
        }
    }

    /// A request that needs the hardware arrives: it starts on the held
    /// handle, or has the device node opened first; while anything is in
    /// flight it is turned away.
    pub open spec fn begin(self, job: Job) -> (ServiceState, Action) {
        match self.slot {
            Slot::Vacant(Waiting::Idle) => (
                self.with(Slot::Vacant(Waiting::Opening { job })),
                Action::OpenDevice,
            ),
            Slot::Held { fd, running: Running::Idle } => {
                let (running, action) = Self::start(fd, job);
                (self.with(Slot::Held { fd, running }), action)
            },
            _ => (self, Action::Rejected),
        }
    }

    /// The request to shut down arrives: a held handle is given up, fans to
    /// the firmware first; with no handle there is nothing to do.
    pub open spec fn shutdown(self) -> (ServiceState, Action) {
        match self.slot {
            Slot::Vacant(Waiting::Idle) => (self, Action::Finished(Ok(Reply::ShutDown))),
            Slot::Held { fd, running: Running::Idle } => (
                self.with(Slot::Held { fd, running: Running::Releasing { quiet: false } }),
                Action::Perform(TuxedoIo::auto_command(fd)),
            ),
            _ => (self, Action::Rejected),
        }
    }

    /// The manager is about to be destroyed: whatever is in flight is
    /// dropped, a held handle is given up, fans to the firmware first, and a
    /// descriptor whose check was under way is closed. A descriptor whose
    /// close was under way is taken to be closed: no descriptor is closed
    /// twice.
    pub open spec fn teardown(self) -> (ServiceState, Action) {
        match self.slot {
            Slot::Held { fd, .. } => (
                self.with(Slot::Held { fd, running: Running::Releasing { quiet: true } }),
                Action::Perform(TuxedoIo::auto_command(fd)),
            ),
            Slot::Vacant(Waiting::Checking { fd, .. }) => (
                self.with(Slot::Vacant(Waiting::Closing { fd, result: Ok(Reply::ShutDown) })),
                Action::CloseDevice { fd },
            ),
            Slot::Vacant(_) => (
                self.with(Slot::Vacant(Waiting::Idle)),
                Action::Finished(Ok(Reply::ShutDown)),
            ),
        }
    }

    /// The action that was handed out last has ended with `outcome`.
    pub open spec fn resume(self, outcome: Outcome) -> (ServiceState, Action) {
        match self.slot {
            Slot::Vacant(Waiting::Idle) => (self, Action::Rejected),
            Slot::Vacant(Waiting::Opening { job }) => match outcome {
                Ok(fd) => (
                    self.with(Slot::Vacant(Waiting::Checking { fd, job })),
                    Action::Perform(TuxedoIo::check_command(fd)),
                ),
                Err(errno) => (
                    self.with(Slot::Vacant(Waiting::Idle)),
                    Action::Finished(Err(IoError::DeviceUnavailable(errno))),
                ),
            },
            Slot::Vacant(Waiting::Checking { fd, job }) => match hardware_checked(outcome) {
                Ok(()) => {
                    let (running, action) = Self::start(fd, job);
                    (self.with(Slot::Held { fd, running }), action)
                },
                Err(error) => (
                    self.with(Slot::Vacant(Waiting::Closing { fd, result: Err(error) })),
                    Action::CloseDevice { fd },
                ),
            },
            Slot::Vacant(Waiting::Closing { result, .. }) => (
                self.with(Slot::Vacant(Waiting::Idle)),
                Action::Finished(result),
            ),
            Slot::Held { running: Running::Idle, .. } => (self, Action::Rejected),
            Slot::Held { fd, running: Running::ReadingMinSpeed } => (
                self.with(Slot::Held { fd, running: Running::Idle }),
                Action::Finished(enumerated(outcome)),
            ),
            Slot::Held { fd, running: Running::ReadingFan1 } => match spec_duty_reading(outcome) {
                Ok(fan1) => (
                    self.with(Slot::Held { fd, running: Running::ReadingFan2 { fan1 } }),
                    Action::Perform(TuxedoIo::speed_command(fd, Fan::Fan2)),
                ),
                Err(error) => (
                    self.with(Slot::Held { fd, running: Running::Idle }),
                    Action::Finished(Err(error)),
                ),
            },
            Slot::Held { fd, running: Running::ReadingFan2 { fan1 } } => (
                self.with(Slot::Held { fd, running: Running::Idle }),
                Action::Finished(
                    match spec_duty_reading(outcome) {
                        Ok(fan2) => Ok(Reply::Status { fan1, fan2 }),
                        Err(error) => Err(error),
                    },
                ),
            ),
            Slot::Held { fd, running: Running::Resetting } => (
                self.with(Slot::Held { fd, running: Running::Idle }),
                Action::Finished(confirmed(Reply::ChannelReset, outcome)),
            ),
            Slot::Held { fd, running: Running::Setting } => (
                self.with(Slot::Held { fd, running: Running::Idle }),
                Action::Finished(confirmed(Reply::DutyApplied, outcome)),
            ),
            Slot::Held { fd, running: Running::Releasing { quiet } } => (
                ServiceState {
                    slot: Slot::Vacant(Waiting::Closing { fd, result: released(quiet, outcome) }),
                    shut_down: true,
                },
                Action::CloseDevice { fd },
            ),
        }
    }

    /// The next state and the next action, for any input.
    pub open spec fn step(self, input: Input) -> (ServiceState, Action) {
        match input {
            Input::Begin(job) => self.begin(job),
            Input::Shutdown => self.shutdown(),
            Input::Resume(outcome) => self.resume(outcome),
            Input::Teardown => self.teardown(),
        }
    }
}

} // verus!
