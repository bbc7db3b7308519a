//! What holds of the manager's transition system, whatever the device does.

use crate::error::IoError;
use crate::service::model::{Input, Job, Running, ServiceState, Slot, Waiting};
use crate::service::{requested_percentage, Action, Phase, Reply};
use crate::sys::ioctl::{Command, Op, Outcome};
use crate::tuxedo_io::{
    lemma_percentage_round_trip, percentage_as_speed, speed_as_percentage, Fan,
    HARDWARE_COMPATIBLE, MAX_DUTY,
};
use vstd::prelude::*;

verus! {

/// How many actions a job takes on a held handle.
pub open spec fn job_length(job: Job) -> nat {
    match job {
        Job::Initialize => 0,
        Job::Status => 2,
        _ => 1,
    }
}

/// A bound on the actions that are still to come before the request in
/// flight is answered.
pub open spec fn actions_left(state: ServiceState) -> nat {
    match state.slot {
        Slot::Vacant(Waiting::Idle) => 0,
        Slot::Vacant(Waiting::Opening { job }) => job_length(job) + 3,
        Slot::Vacant(Waiting::Checking { job, .. }) => job_length(job) + 2,
        Slot::Vacant(Waiting::Closing { .. }) => 1,
        Slot::Held { running, .. } => match running {
            Running::Idle => 0,
            Running::ReadingFan1 | Running::Releasing { .. } => 2,
            _ => 1,
        },
    }
}

/// The descriptor an action is to be performed on, if it needs one.
pub open spec fn descriptor_of(action: Action) -> Option<i32> {
    match action {
        Action::Perform(command) => Some(command.spec_fd()),
        Action::CloseDevice { fd } => Some(fd),
        _ => None,
    }
}

/// The descriptor a state knows of: that of the held handle, or the one that
/// is being checked or closed.
pub open spec fn open_descriptor(state: ServiceState) -> Option<i32> {
    match state.slot {
        Slot::Held { fd, .. } => Some(fd),
        Slot::Vacant(Waiting::Checking { fd, .. }) => Some(fd),
        Slot::Vacant(Waiting::Closing { fd, .. }) => Some(fd),
        Slot::Vacant(_) => None,
    }
}

/// An action says what has become of the manager: after `Finished` nothing
/// is in flight, after an action for the host something is, and `Rejected`
/// has changed nothing.
pub proof fn lemma_action_tells_the_state(state: ServiceState, input: Input)
    ensures
        match state.step(input).1 {
            Action::Finished(_) => state.step(input).0.is_idle(),
            Action::Rejected => state.step(input).0 == state,
            _ => !state.step(input).0.is_idle(),
        },
{
}

/// Every request is answered: each outcome that is reported brings the
/// request in flight nearer to its answer, which comes after five actions at
/// the most.
pub proof fn lemma_resume_makes_progress(state: ServiceState, outcome: Outcome)
    requires
        !state.is_idle(),
    ensures
        actions_left(state.resume(outcome).0) < actions_left(state) <= 5,
        state.resume(outcome).0.is_idle() <==> actions_left(state.resume(outcome).0) == 0,
{
}

/// Every ioctl is made in the shape of its operation, and every action goes
/// to the one descriptor that the manager knows of: the one that the host
/// reported for the last `OpenDevice`, which stays the same until it is
/// closed.
pub proof fn lemma_actions_go_to_the_open_descriptor(state: ServiceState, input: Input)
    ensures
        match state.step(input).1 {
            Action::Perform(command) => command.well_formed() && open_descriptor(
                state.step(input).0,
            ) == Some(command.spec_fd()),
            Action::CloseDevice { fd } => state.step(input).0.slot is Vacant && open_descriptor(
                state.step(input).0,
            ) == Some(fd),
            _ => true,
        },
        open_descriptor(state) is Some && open_descriptor(state.step(input).0) is Some
            ==> open_descriptor(state.step(input).0) == open_descriptor(state),
        open_descriptor(state) is None && open_descriptor(state.step(input).0) is Some ==> {
            &&& state.slot is Vacant
            &&& state.slot->Vacant_0 is Opening
            &&& input == Input::Resume(Ok(open_descriptor(state.step(input).0)->Some_0))
        },
        descriptor_of(state.step(input).1) is Some ==> descriptor_of(state.step(input).1)
            == open_descriptor(state.step(input).0),
{
}

/// No descriptor is closed twice, and none is used after its close: once the
/// host is told to close a descriptor, the only thing that can follow on it
/// is the report of that close, after which the manager knows of no
/// descriptor.
pub proof fn lemma_descriptor_is_closed_once(state: ServiceState, input: Input, next: Input)
    requires
        state.step(input).1 is CloseDevice,
    ensures
        state.step(input).0.slot is Vacant,
        state.step(input).0.slot->Vacant_0 is Closing,
        descriptor_of(state.step(input).0.step(next).1) is None,
        next is Resume || next is Teardown ==> open_descriptor(state.step(input).0.step(next).0)
            is None,
        !(next is Resume || next is Teardown) ==> state.step(input).0.step(next) == (
            state.step(input).0,
            Action::Rejected,
        ),
{
}

/// A handle is never given up with the fans under manual control: the only
/// step that lets go of a held handle is the one that takes the outcome of
/// the signal handing the fans back to the firmware, and the only way into
/// waiting for that outcome is to be handed that signal.
pub proof fn lemma_handle_is_given_up_only_after_fans_auto(state: ServiceState, input: Input)
    requires
        state.slot is Held,
    ensures
        state.step(input).0.slot is Vacant ==> {
            &&& input is Resume
            &&& state.slot->running is Releasing
            &&& state.step(input).1 == (Action::CloseDevice { fd: state.slot->fd })
            &&& state.step(input).0.shut_down
        },
        state.step(input).0.slot is Held ==> state.step(input).0.slot->fd == state.slot->fd,
        state.step(input).0.slot is Held && state.step(input).0.slot->running is Releasing && !(
        state.slot->running is Releasing && state.step(input).1 is Rejected) ==> state.step(
            input,
        ).1 == Action::Perform(Command::Signal { fd: state.slot->fd, op: Op::WriteFanAuto }),
{
}

/// While a request is in flight, another that needs the hardware is turned
/// away: it changes nothing and has nothing performed, so that the actions of
/// two requests never mix.
pub proof fn lemma_request_in_flight_is_alone(state: ServiceState, job: Job)
    requires
        !state.is_idle(),
    ensures
        state.begin(job) == (state, Action::Rejected),
        state.shutdown() == (state, Action::Rejected),
{
}

/// A command that fails costs the handle nothing: its request is answered
/// with the driver's error, and the handle is held as before, free for the
/// next request.
pub proof fn lemma_failed_command_keeps_the_handle(state: ServiceState, errno: i32)
    requires
        state.slot is Held,
        !state.is_idle(),
        !(state.slot->running is Releasing),
    ensures
        state.resume(Err(errno)) == (
            state.with(Slot::Held { fd: state.slot->fd, running: Running::Idle }),
            Action::Finished(Err(IoError::DriverError(errno))),
        ),
{
}

/// An open that fails leaves the manager where it was: the request is
/// answered with `DeviceUnavailable`, and the next one tries again.
pub proof fn lemma_failed_open_changes_nothing(state: ServiceState, job: Job, errno: i32)
    requires
        state.slot == Slot::Vacant(Waiting::Idle),
    ensures
        state.begin(job).1 == Action::OpenDevice,
        state.begin(job).0.resume(Err(errno)) == (
            state,
            Action::Finished(Err(IoError::DeviceUnavailable(errno))),
        ),
{
}

/// A descriptor whose hardware check does not answer `HARDWARE_COMPATIBLE`
/// never becomes a handle: it is closed at once, the request is answered
/// with the error, and the manager is where it was.
pub proof fn lemma_failed_check_closes_the_descriptor(
    state: ServiceState,
    job: Job,
    fd: i32,
    check: Outcome,
    closed: Outcome,
)
    requires
        state.slot == Slot::Vacant(Waiting::Idle),
        check != Ok::<i32, i32>(HARDWARE_COMPATIBLE),
    ensures
        ({
            let opening = state.begin(job).0;
            let (checking, check_action) = opening.resume(Ok(fd));
            let (closing, close_action) = checking.resume(check);
            let (after, answer) = closing.resume(closed);
            &&& check_action == Action::Perform(Command::ReadInt { fd, op: Op::HwCheck })
            &&& close_action == (Action::CloseDevice { fd })
            &&& answer == Action::Finished(
                Err(
                    match check {
                        Ok(_) => IoError::HardwareUnsupported,
                        Err(errno) => IoError::DriverError(errno),
                    },
                ),
            )
            &&& after == state
        }),
{
}

/// After a shutdown that gave up a handle, a status request opens the device
/// node anew, checks the new descriptor, and is answered with both speeds on
/// a manager that is active again.
pub proof fn lemma_status_after_shutdown_reopens(
    state: ServiceState,
    signalled: Outcome,
    closed: Outcome,
    fd: i32,
    speed1: i32,
    speed2: i32,
)
    requires
        state.slot is Held,
        state.is_idle(),
    ensures
        ({
            let (releasing, signal) = state.shutdown();
            let (closing, close) = releasing.resume(signalled);
            let (down, answer) = closing.resume(closed);
            let (opening, open) = down.begin(Job::Status);
            let (checking, check) = opening.resume(Ok(fd));
            let (reading1, read1) = checking.resume(Ok(HARDWARE_COMPATIBLE));
            let (reading2, read2) = reading1.resume(Ok(speed1));
            let (up, status) = reading2.resume(Ok(speed2));
            &&& signal == Action::Perform(
                Command::Signal { fd: state.slot->fd, op: Op::WriteFanAuto },
            )
            &&& close == (Action::CloseDevice { fd: state.slot->fd })
            &&& answer is Finished
            &&& (signalled is Ok ==> answer == Action::Finished(Ok(Reply::ShutDown)))
            &&& down.phase() == Phase::ShutDown
            &&& down.is_idle()
            &&& open == Action::OpenDevice
            &&& check == Action::Perform(Command::ReadInt { fd, op: Op::HwCheck })
            &&& read1 == Action::Perform(Command::ReadInt { fd, op: Op::ReadFanSpeed1 })
            &&& reading1.phase() == Phase::Active
            &&& read2 == Action::Perform(Command::ReadInt { fd, op: Op::ReadFanSpeed2 })
            &&& status == Action::Finished(
                Ok(
                    Reply::Status {
                        fan1: speed_as_percentage(speed1 as int) as u8,
                        fan2: speed_as_percentage(speed2 as int) as u8,
                    },
                ),
            )
            &&& up == (ServiceState { slot: Slot::Held { fd, running: Running::Idle }, shut_down: true })
        }),
{
}

/// A manager that is torn down while it holds a handle hands the fans back
/// to the firmware exactly once: the signal is the first action, whatever was
/// in flight and however the commands before it ended; the close follows,
/// whatever the signal's outcome; then all is done, and a second teardown
/// finds nothing left to do.
pub proof fn lemma_teardown_hands_the_fans_back_once(
    state: ServiceState,
    signalled: Outcome,
    closed: Outcome,
)
    requires
        state.slot is Held,
    ensures
        ({
            let (releasing, signal) = state.teardown();
            let (closing, close) = releasing.resume(signalled);
            let (down, done) = closing.resume(closed);
            &&& signal == Action::Perform(
                Command::Signal { fd: state.slot->fd, op: Op::WriteFanAuto },
            )
            &&& close == (Action::CloseDevice { fd: state.slot->fd })
            &&& done == Action::Finished(Ok(Reply::ShutDown))
            &&& down == (ServiceState { slot: Slot::Vacant(Waiting::Idle), shut_down: true })
            &&& down.teardown() == (down, Action::Finished(Ok(Reply::ShutDown)))
        }),
{
}

/// Without a handle a shutdown is answered at once and changes nothing, and
/// a teardown has no signal sent.
pub proof fn lemma_nothing_to_give_up_without_a_handle(state: ServiceState)
    requires
        state.slot is Vacant,
    ensures
        state.is_idle() ==> state.shutdown() == (state, Action::Finished(Ok(Reply::ShutDown))),
        !(state.teardown().1 is Perform),
        state.teardown().0.slot is Vacant,
        state.teardown().0.shut_down == state.shut_down,
{
}

/// A duty within the percentage scale is taken as it is.
pub proof fn lemma_duty_within_scale_is_kept(duty: u32)
    requires
        duty <= MAX_DUTY,
    ensures
        requested_percentage(duty) == duty,
{
}

/// A fixed duty shows in the next status: where the driver hands back, for
/// the fan that was set, the raw speed it was given, the status names the
/// duty that was asked for.
pub proof fn lemma_status_shows_the_fixed_duty(
    state: ServiceState,
    fan: Fan,
    percentage: u8,
    written: Outcome,
    other: i32,
)
    requires
        state.slot is Held,
        state.is_idle(),
        percentage <= MAX_DUTY,
        written is Ok,
    ensures
        ({
            let raw = percentage_as_speed(percentage as int) as i32;
            let (setting, write) = state.begin(Job::FixedDuty { fan, percentage });
            let (set, applied) = setting.resume(written);
            let (reading1, read1) = set.begin(Job::Status);
            let (reading2, read2) = reading1.resume(Ok(if fan == Fan::Fan1 { raw } else { other }));
            let (read, status) = reading2.resume(Ok(if fan == Fan::Fan2 { raw } else { other }));
            &&& write == Action::Perform(
                Command::WriteInt { fd: state.slot->fd, op: fan.speed_write_op(), value: raw },
            )
            &&& applied == Action::Finished(Ok(Reply::DutyApplied))
            &&& read1 == Action::Perform(
                Command::ReadInt { fd: state.slot->fd, op: Op::ReadFanSpeed1 },
            )
            &&& read2 == Action::Perform(
                Command::ReadInt { fd: state.slot->fd, op: Op::ReadFanSpeed2 },
            )
            &&& status is Finished
            &&& status->Finished_0 matches Ok(Reply::Status { fan1, fan2 })
            &&& (if fan == Fan::Fan1 { fan1 } else { fan2 }) == percentage
            &&& read == state
        }),
{
    lemma_percentage_round_trip(percentage as int);
}

} // verus!
