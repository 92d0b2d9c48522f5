//! Device sessions: one per successful open, released on close. A session
//! answers control-code requests, and the only request it knows asks the
//! thermal subsystem for the CPU package temperature.
//!
//! A `DeviceSession` is a handle that is ready: `open` makes it, a request
//! borrows it and leaves it ready, `release` consumes it, and what is
//! consumed cannot be used again.
//!
//! A session does not reach the thermal subsystem itself. A request is
//! answered in steps, between which the caller does the subsystem's work:
//! `dispatch` judges the control code, `ZoneLookup::resolved` judges the zone
//! that the caller found, `TemperatureRead::completed` judges the reading.
//! `dispatch_with` runs the steps over two functions of the caller.

use vstd::prelude::*;
use crate::diagnostic::Diagnostic;
use crate::error::DeviceError;
use crate::ioctl::{is_recognized, RUST_MISC_DEV_CPUTEMP};
use crate::temperature::{to_whole_degrees, whole_degrees};

verus! {

/// Name of the thermal zone of the CPU package sensor.
pub const SENSOR_NAME: &'static str = "x86_pkg_temp";

/// What `dispatch` returns for `command`, where `zone_found` says whether the
/// thermal subsystem knows the sensor's zone and `reading` is what reading
/// the zone gave, `None` for a failed read. Neither matters for a command
/// that is not recognized, nor the reading where no zone was found.
pub open spec fn dispatch_result(command: u32, zone_found: bool, reading: Option<i32>) -> Result<
    isize,
    DeviceError,
> {
    if command != RUST_MISC_DEV_CPUTEMP {
        Err(DeviceError::UnsupportedCommand)
    } else if !zone_found {
        Err(DeviceError::SensorUnavailable)
    } else {
        reading_result(reading)
    }
}

/// What a request returns once the zone's temperature was read, `None`
/// standing for a read that failed.
pub open spec fn reading_result(reading: Option<i32>) -> Result<isize, DeviceError> {
    match reading {
        Some(millidegrees) => Ok(whole_degrees(millidegrees as int) as isize),
        None => Err(DeviceError::SensorUnavailable),
    }
}

/// Whether `zone` is something that `lookup` may return for the sensor's
/// name and, where it is a zone, `reading` is something that `read` may
/// return for it.
pub open spec fn sensor_answered<Z, L, R>(
    lookup: L,
    read: R,
    zone: Option<Z>,
    reading: Option<i32>,
) -> bool where L: FnOnce(&'static str) -> Option<Z>, R: FnOnce(&Z) -> Option<i32> {
    &&& call_ensures(lookup, (SENSOR_NAME,), zone)
    &&& zone matches Some(found) ==> call_ensures(read, (&found,), reading)
}

/// The diagnostics after a request for `command` on a session, given those
/// before it: only the recognized command leaves a trace.
pub open spec fn log_after_dispatch(log: Seq<Diagnostic>, command: u32) -> Seq<Diagnostic> {
    if command == RUST_MISC_DEV_CPUTEMP {
        log.push(Diagnostic::Dispatch)
    } else {
        log
    }
}

/// How an attempt to open the device ends, by whether the device is
/// registered and whether the session object could be allocated: `None` for
/// success.
pub open spec fn open_failure(registered: bool, allocated: bool) -> Option<DeviceError> {
    if !registered {
        Some(DeviceError::NoSuchDevice)
    } else if !allocated {
        Some(DeviceError::OutOfMemory)
    } else {
        None
    }
}

/// The diagnostics after an attempt to open the device, given those before
/// it: an attempt reaches the session handler, which reports it, only while
/// the device is registered.
pub open spec fn log_after_open(log: Seq<Diagnostic>, registered: bool) -> Seq<Diagnostic> {
    if registered {
        log.push(Diagnostic::Open)
    } else {
        log
    }
}

/// An open handle on the device. It carries no state: any two sessions
/// behave alike, and nothing done through one is visible through another.
#[derive(Debug, PartialEq, Eq)]
pub struct DeviceSession {
    _private: (),
}

/// A recognized request that waits for the caller to look up the sensor's
/// zone in the thermal subsystem.
#[derive(Debug, PartialEq, Eq)]
pub struct ZoneLookup {
    _private: (),
}

/// A recognized request that waits for the caller to read the temperature of
/// the zone it found.
#[derive(Debug, PartialEq, Eq)]
pub struct TemperatureRead<Z> {
    zone: Z,
}

impl DeviceSession {
    /// Opens a session on a device that is registered. `allocated` says
    /// whether the caller could allocate the session object; opening fails
    /// only if it could not. The attempt is reported either way.
    pub fn open(allocated: bool, log: &mut Vec<Diagnostic>) -> (session: Result<
        DeviceSession,
        DeviceError,
    >)
        ensures
            match open_failure(true, allocated) {
                Some(failure) => session == Err::<DeviceSession, DeviceError>(failure),
                None => session is Ok,
            },
            final(log)@ == log_after_open(old(log)@, true),
    {
        log.push(Diagnostic::Open);
        if allocated {
            Ok(DeviceSession { _private: () })
        } else {
            Err(DeviceError::OutOfMemory)
        }
    }

    /// Any two sessions are the same value.
    pub proof fn lemma_stateless(one: DeviceSession, other: DeviceSession)
        ensures
            one == other,
    {
    }

    /// Takes a control-code request. Any command but the recognized one is
    /// refused as unsupported and leaves no trace. The recognized one is
    /// reported, and the caller is to look up the zone named by
    /// `ZoneLookup::sensor`. The session is the same afterwards, whatever
    /// the command. The argument of the request is accepted and not used.
    pub fn dispatch(&self, command: u32, _argument: usize, log: &mut Vec<Diagnostic>) -> (step:
        Result<ZoneLookup, DeviceError>)
        ensures
            step is Ok <==> command == RUST_MISC_DEV_CPUTEMP,
            command != RUST_MISC_DEV_CPUTEMP ==> step == Err::<ZoneLookup, DeviceError>(
                DeviceError::UnsupportedCommand,
            ),
            final(log)@ == log_after_dispatch(old(log)@, command),
    {
        if is_recognized(command) {
            log.push(Diagnostic::Dispatch);
            Ok(ZoneLookup { _private: () })
        } else {
            Err(DeviceError::UnsupportedCommand)
        }
    }

    /// Answers a control-code request from beginning to end. `lookup` stands
    /// for the thermal subsystem's search for a zone by name and returns
    /// `None` where there is no such zone; `read` stands for reading a zone's
    /// temperature in millidegrees Celsius and returns `None` on failure.
    /// Neither is called for a command that is not recognized, and `read` is
    /// called only with a zone that `lookup` found under the sensor's name.
    pub fn dispatch_with<Z, L, R>(
        &self,
        command: u32,
        argument: usize,
        lookup: L,
        read: R,
        log: &mut Vec<Diagnostic>,
    ) -> (result: Result<isize, DeviceError>) where
        L: FnOnce(&'static str) -> Option<Z>,
        R: FnOnce(&Z) -> Option<i32>,

        requires
            command == RUST_MISC_DEV_CPUTEMP ==> call_requires(lookup, (SENSOR_NAME,)),
            command == RUST_MISC_DEV_CPUTEMP ==> forall|zone: Z|
                call_ensures(lookup, (SENSOR_NAME,), Some(zone)) ==> call_requires(read, (&zone,)),
        ensures
            final(log)@ == log_after_dispatch(old(log)@, command),
            command != RUST_MISC_DEV_CPUTEMP ==> result == dispatch_result(command, false, None),
            command == RUST_MISC_DEV_CPUTEMP ==> exists|zone: Option<Z>, reading: Option<i32>|
                #[trigger] sensor_answered(lookup, read, zone, reading) && result
                    == dispatch_result(command, zone is Some, reading),
    {
        let lookup_step = match self.dispatch(command, argument, log) {
            Ok(step) => step,
            Err(refused) => {
                return Err(refused);
            },
        };
        let zone = lookup(lookup_step.sensor());
        let ghost answer = zone;
        let read_step = match lookup_step.resolved(zone) {
            Ok(step) => step,
            Err(unavailable) => {
                assert(sensor_answered(lookup, read, answer, None));
                return Err(unavailable);
            },
        };
        let reading = read(read_step.zone_handle());
        assert(sensor_answered(lookup, read, answer, reading));
        read_step.completed(reading)
    }

    /// Releases the session, which ends here. Always succeeds.
    pub fn release(self, log: &mut Vec<Diagnostic>)
        ensures
            final(log)@ == old(log)@.push(Diagnostic::Release),
    {
        log.push(Diagnostic::Release);
    }
}

impl ZoneLookup {
    /// The name of the zone to look up.
    pub fn sensor(&self) -> (name: &'static str)
        ensures
            name == SENSOR_NAME,
    {
        SENSOR_NAME
    }

    /// Takes the outcome of the lookup: `None` where the thermal subsystem
    /// knows no such zone or handed out an invalid handle. Such an outcome
    /// ends the request as sensor unavailable, so that no read is ever asked
    /// of a zone that was not found. A zone that was found is to be read.
    pub fn resolved<Z>(self, zone: Option<Z>) -> (step: Result<TemperatureRead<Z>, DeviceError>)
        ensures
            match zone {
                Some(found) => step is Ok && step->Ok_0.zone() == found,
                None => step == Err::<TemperatureRead<Z>, DeviceError>(
                    DeviceError::SensorUnavailable,
                ),
            },
    {
        match zone {
            Some(found) => Ok(TemperatureRead { zone: found }),
            None => Err(DeviceError::SensorUnavailable),
        }
    }
}

impl<Z> TemperatureRead<Z> {
    /// The zone to read.
    pub closed spec fn zone(self) -> Z {
        self.zone
    }

    /// The zone to read.
    pub fn zone_handle(&self) -> (zone: &Z)
        ensures
            *zone == self.zone(),
    {
        &self.zone
    }

    /// Takes the outcome of the read, in millidegrees Celsius, `None` where
    /// the thermal subsystem reported a failure, and ends the request: with
    /// the temperature in whole degrees, or as sensor unavailable.
    pub fn completed(self, reading: Option<i32>) -> (result: Result<isize, DeviceError>)
        ensures
            result == reading_result(reading),
    {
        match reading {
            Some(millidegrees) => Ok(to_whole_degrees(millidegrees)),
            None => Err(DeviceError::SensorUnavailable),
        }
    }
}

} // verus!
