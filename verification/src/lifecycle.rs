//! Module lifecycle: the device is registered once when the module starts
//! and unregistered when the module ends. The controller owns the
//! registration in between, and a session can be opened only while it does.
//!
//! Registering is the work of the operating system. `init` takes its outcome,
//! `init_with` takes a function of the caller that does it.

use vstd::prelude::*;
use crate::diagnostic::Diagnostic;
use crate::error::DeviceError;
use crate::session::{log_after_open, open_failure, DeviceSession};

verus! {

/// Name under which the device is registered.
pub const DEVICE_NAME: &'static str = "rust-misc-device";

/// What the operating system is told of the device to register.
#[derive(Clone, Copy, Debug, PartialEq, Eq)]
pub struct DeviceDescriptor {
    /// Name of the device.
    pub name: &'static str,
}

/// A live registration of the device: the name it was made under and the
/// handle that the operating system gave for it. Dropping the handle is what
/// unregisters the device, so the registration owns it alone.
#[derive(Debug)]
pub struct ModuleRegistration<H> {
    name: &'static str,
    handle: H,
}

/// Owner of the module's registration. It holds at most one, from a
/// successful `init` until `exit`.
#[derive(Debug)]
pub struct LifecycleController<H> {
    registration: Option<ModuleRegistration<H>>,
}

/// The diagnostics after `init`, given those before it and whether the
/// device was registered: only a successful start is reported.
pub open spec fn log_after_init(log: Seq<Diagnostic>, registered: bool) -> Seq<Diagnostic> {
    if registered {
        log.push(Diagnostic::ModuleInit)
    } else {
        log
    }
}

/// The diagnostics after `exit`, given those before it and whether a
/// registration was live: only giving one up is reported.
pub open spec fn log_after_exit(log: Seq<Diagnostic>, registered: bool) -> Seq<Diagnostic> {
    if registered {
        log.push(Diagnostic::ModuleExit)
    } else {
        log
    }
}

/// The descriptor that the device is registered with.
pub open spec fn device_descriptor() -> DeviceDescriptor {
    DeviceDescriptor { name: DEVICE_NAME }
}

impl<H> ModuleRegistration<H> {
    #[verifier::type_invariant]
    spec fn named_as_device(self) -> bool {
        self.name == DEVICE_NAME
    }

    /// The handle that the operating system gave.
    pub closed spec fn handle(self) -> H {
        self.handle
    }

    /// The handle that the operating system gave.
    pub fn handle_ref(&self) -> (handle: &H)
        ensures
            *handle == self.handle(),
    {
        &self.handle
    }

    /// The name that the device is registered under.
    pub fn name(&self) -> (name: &'static str)
        ensures
            name == DEVICE_NAME,
    {
        proof {
            use_type_invariant(self);
        }
        self.name
    }
}

impl<H> LifecycleController<H> {
    /// The handle of the live registration, if there is one.
    pub closed spec fn handle(self) -> Option<H> {
        match self.registration {
            Some(registration) => Some(registration.handle()),
            None => None,
        }
    }

    /// Whether a registration is live, that is, whether the device can be
    /// reached.
    pub open spec fn registered(self) -> bool {
        self.handle() is Some
    }

    /// A controller that holds no registration: the module before `init`.
    pub fn new() -> (controller: Self)
        ensures
            !controller.registered(),
    {
        LifecycleController { registration: None }
    }

    /// The descriptor to register the device with.
    pub fn descriptor() -> (descriptor: DeviceDescriptor)
        ensures
            descriptor == device_descriptor(),
    {
        DeviceDescriptor { name: DEVICE_NAME }
    }

    /// Whether a registration is live.
    pub fn is_registered(&self) -> (registered: bool)
        ensures
            registered == self.registered(),
    {
        self.registration.is_some()
    }

    /// The live registration, if there is one.
    pub fn registration(&self) -> (registration: Option<&ModuleRegistration<H>>)
        ensures
            match registration {
                Some(live) => self.handle() == Some(live.handle()),
                None => !self.registered(),
            },
    {
        self.registration.as_ref()
    }

    /// What `init` does with the outcome of registering the device: a
    /// handle is stored; a failure is handed back as it came and the
    /// controller stays as it was.
    pub open spec fn init_ends<E>(
        before: Self,
        outcome: Result<H, E>,
        after: Self,
        started: Result<(), E>,
    ) -> bool {
        match outcome {
            Ok(handle) => started is Ok && after.handle() == Some(handle),
            Err(failure) => started == Err::<(), E>(failure) && after == before,
        }
    }

    /// Starts the module with the outcome of registering the device. A handle
    /// is stored and the start reported. A failure is handed back as it
    /// came, and the controller is left as it was: nothing is kept and
    /// nothing is reported.
    pub fn init<E>(&mut self, outcome: Result<H, E>, log: &mut Vec<Diagnostic>) -> (started:
        Result<(), E>)
        requires
            !old(self).registered(),
        ensures
            Self::init_ends(*old(self), outcome, *final(self), started),
            final(log)@ == log_after_init(old(log)@, outcome is Ok),
    {
        match outcome {
            Ok(handle) => {
                self.registration = Some(ModuleRegistration { name: DEVICE_NAME, handle });
                log.push(Diagnostic::ModuleInit);
                Ok(())
            },
            Err(failure) => Err(failure),
        }
    }

    /// Starts the module: has `register` register the device under its
    /// descriptor and goes on as `init` does with the outcome.
    pub fn init_with<E, F>(&mut self, register: F, log: &mut Vec<Diagnostic>) -> (started: Result<
        (),
        E,
    >) where F: FnOnce(DeviceDescriptor) -> Result<H, E>
        requires
            !old(self).registered(),
            call_requires(register, (device_descriptor(),)),
        ensures
            exists|outcome: Result<H, E>|
                {
                    &&& #[trigger] call_ensures(register, (device_descriptor(),), outcome)
                    &&& Self::init_ends(*old(self), outcome, *final(self), started)
                    &&& final(log)@ == log_after_init(old(log)@, outcome is Ok)
                },
    {
        let outcome = register(Self::descriptor());
        self.init(outcome, log)
    }

    /// What `exit` does: the handle of the registration that was live, if
    /// any, goes to the caller, and none is live afterwards.
    pub open spec fn exit_ends(before: Self, after: Self, released: Option<H>) -> bool {
        released == before.handle() && !after.registered()
    }

    /// Ends the module: gives up the registration and hands its handle to
    /// the caller, who unregisters the device by dropping it. Once this has
    /// returned, the device cannot be opened. Sessions that are open stay
    /// usable. Without a live registration nothing happens.
    pub fn exit(&mut self, log: &mut Vec<Diagnostic>) -> (released: Option<H>)
        ensures
            Self::exit_ends(*old(self), *final(self), released),
            final(log)@ == log_after_exit(old(log)@, old(self).registered()),
    {
        match self.registration.take() {
            Some(registration) => {
                log.push(Diagnostic::ModuleExit);
                Some(registration.handle)
            },
            None => None,
        }
    }

    /// Opens a session on the device. There is a device to open only while a
    /// registration is live; otherwise the attempt fails with no such
    /// device and goes unreported. The controller is the same afterwards, so
    /// one attempt has no bearing on the next.
    pub fn open_session(&self, allocated: bool, log: &mut Vec<Diagnostic>) -> (session: Result<
        DeviceSession,
        DeviceError,
    >)
        ensures
            match open_failure(self.registered(), allocated) {
                Some(failure) => session == Err::<DeviceSession, DeviceError>(failure),
                None => session is Ok,
            },
            final(log)@ == log_after_open(old(log)@, self.registered()),
    {
        if self.registration.is_some() {
            DeviceSession::open(allocated, log)
        } else {
            Err(DeviceError::NoSuchDevice)
        }
    }
}

} // verus!
