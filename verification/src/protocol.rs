//! What holds of the device's operations taken together: which requests
//! leave a trace, what a session may depend on, and when the device can be
//! opened at all.

use vstd::prelude::*;
use crate::diagnostic::Diagnostic;
use crate::error::DeviceError;
use crate::ioctl::RUST_MISC_DEV_CPUTEMP;
use crate::lifecycle::LifecycleController;
use crate::session::{
    dispatch_result,
    log_after_dispatch,
    log_after_open,
    open_failure,
    DeviceSession,
};
use crate::temperature::{lemma_whole_degrees_bounded, whole_degrees};

verus! {

/// A command other than the recognized one is refused as unsupported,
/// whatever the sensor would have answered, and leaves no trace: a request
/// that follows it on the same session ends as it would have ended without
/// it.
pub proof fn lemma_unsupported_command_changes_nothing(
    command: u32,
    zone_found: bool,
    reading: Option<i32>,
    log: Seq<Diagnostic>,
    next: u32,
)
    requires
        command != RUST_MISC_DEV_CPUTEMP,
    ensures
        dispatch_result(command, zone_found, reading) == Err::<isize, DeviceError>(
            DeviceError::UnsupportedCommand,
        ),
        log_after_dispatch(log, command) == log,
        log_after_dispatch(log_after_dispatch(log, command), next) == log_after_dispatch(log, next),
{
}

/// The recognized command, with the sensor's zone found and read, returns
/// the reading in whole degrees, rounded toward zero; without a zone or
/// without a reading it fails as sensor unavailable.
pub proof fn lemma_recognized_command_reports_whole_degrees(millidegrees: i32)
    ensures
        dispatch_result(RUST_MISC_DEV_CPUTEMP, true, Some(millidegrees)) matches Ok(degrees)
            && degrees == whole_degrees(millidegrees as int),
        dispatch_result(RUST_MISC_DEV_CPUTEMP, true, None) == Err::<isize, DeviceError>(
            DeviceError::SensorUnavailable,
        ),
        forall|reading: Option<i32>| #[trigger]
            dispatch_result(RUST_MISC_DEV_CPUTEMP, false, reading) == Err::<isize, DeviceError>(
                DeviceError::SensorUnavailable,
            ),
{
    lemma_whole_degrees_bounded(millidegrees);
}

/// Opening a session and releasing it at once adds an open and a release to
/// the diagnostics, in this order, and nothing else: nothing that stems from
/// a control-code request.
pub proof fn lemma_open_then_release_reports_no_dispatch(log: Seq<Diagnostic>)
    ensures
        ({
            let after = log_after_open(log, true).push(Diagnostic::Release);
            &&& after == log + seq![Diagnostic::Open, Diagnostic::Release]
            &&& forall|i: int|
                log.len() <= i < after.len() ==> !(#[trigger] after[i]).is_dispatch_related()
        }),
{
}

/// While the device is registered, an attempt to open it succeeds exactly if
/// the session object could be allocated: earlier opens, requests and
/// releases, which leave the controller as it is, do not count.
pub proof fn lemma_opens_are_independent<H>(controller: LifecycleController<H>, allocated: bool)
    requires
        controller.registered(),
    ensures
        open_failure(controller.registered(), allocated) is None <==> allocated,
        !allocated ==> open_failure(controller.registered(), allocated) == Some(
            DeviceError::OutOfMemory,
        ),
{
}

/// A session has no state of its own, so any two sessions are the same
/// value: there is nothing through which a request on one could show on
/// another.
pub proof fn lemma_sessions_share_nothing(one: DeviceSession, other: DeviceSession)
    ensures
        one == other,
{
    DeviceSession::lemma_stateless(one, other);
}

/// After a start that failed to register the device, the device cannot be
/// opened: every attempt fails with no such device and goes unreported.
pub proof fn lemma_failed_init_leaves_no_device<H, E>(
    before: LifecycleController<H>,
    outcome: Result<H, E>,
    after: LifecycleController<H>,
    started: Result<(), E>,
    allocated: bool,
    log: Seq<Diagnostic>,
)
    requires
        !before.registered(),
        outcome is Err,
        LifecycleController::init_ends(before, outcome, after, started),
    ensures
        started is Err,
        !after.registered(),
        open_failure(after.registered(), allocated) == Some(DeviceError::NoSuchDevice),
        log_after_open(log, after.registered()) == log,
{
}

/// Once the module has ended, the device cannot be opened: every attempt
/// fails with no such device and goes unreported.
pub proof fn lemma_exit_closes_device<H>(
    before: LifecycleController<H>,
    after: LifecycleController<H>,
    released: Option<H>,
    allocated: bool,
    log: Seq<Diagnostic>,
)
    requires
        LifecycleController::exit_ends(before, after, released),
    ensures
        open_failure(after.registered(), allocated) == Some(DeviceError::NoSuchDevice),
        log_after_open(log, after.registered()) == log,
{
}

} // verus!
