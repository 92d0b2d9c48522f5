use cputemp::diagnostic::Diagnostic;
use cputemp::error::DeviceError;
use cputemp::ioctl::RUST_MISC_DEV_CPUTEMP;
use cputemp::lifecycle::{DeviceDescriptor, LifecycleController, DEVICE_NAME};

/// A registration subsystem that accepts one device under each name.
struct Registry {
    names: Vec<&'static str>,
    next_handle: u32,
}

impl Registry {
    fn new() -> Self {
        Registry { names: Vec::new(), next_handle: 1 }
    }

    fn register(&mut self, descriptor: DeviceDescriptor) -> Result<u32, i32> {
        if self.names.contains(&descriptor.name) {
            return Err(-16);
        }
        self.names.push(descriptor.name);
        let handle = self.next_handle;
        self.next_handle += 1;
        Ok(handle)
    }
}

fn started(handle: u32) -> LifecycleController<u32> {
    let mut log = Vec::new();
    let mut controller = LifecycleController::new();
    controller.init(Ok::<u32, i32>(handle), &mut log).expect("registration succeeded");
    controller
}

#[test]
fn device_name_is_fixed() {
    assert_eq!(DEVICE_NAME, "rust-misc-device");
    assert_eq!(LifecycleController::<u32>::descriptor().name, "rust-misc-device");
}

#[test]
fn new_controller_holds_no_registration() {
    let controller = LifecycleController::<u32>::new();
    assert!(!controller.is_registered());
    assert!(controller.registration().is_none());
}

#[test]
fn init_stores_the_handle_and_reports_the_start() {
    let mut log = Vec::new();
    let mut controller = LifecycleController::new();
    let result = controller.init(Ok::<u32, i32>(42), &mut log);
    assert_eq!(result, Ok(()));
    assert!(controller.is_registered());
    let registration = controller.registration().expect("a registration is live");
    assert_eq!(*registration.handle_ref(), 42);
    assert_eq!(registration.name(), "rust-misc-device");
    assert_eq!(log, vec![Diagnostic::ModuleInit]);
}

#[test]
fn init_hands_a_failure_back_unchanged() {
    let mut log = Vec::new();
    let mut controller = LifecycleController::<u32>::new();
    let result = controller.init(Err("name already taken"), &mut log);
    assert_eq!(result, Err("name already taken"));
    assert!(!controller.is_registered());
    assert!(log.is_empty());
}

#[test]
fn init_with_registers_under_the_device_name() {
    let mut registry = Registry::new();
    let mut log = Vec::new();
    let mut controller = LifecycleController::new();
    let result = controller.init_with(|descriptor| registry.register(descriptor), &mut log);
    assert_eq!(result, Ok(()));
    assert_eq!(registry.names, vec!["rust-misc-device"]);
    assert_eq!(controller.registration().map(|live| *live.handle_ref()), Some(1));
    assert_eq!(log, vec![Diagnostic::ModuleInit]);
}

#[test]
fn init_with_reports_a_name_collision() {
    let mut registry = Registry::new();
    let mut log = Vec::new();
    let mut first = LifecycleController::new();
    assert_eq!(first.init_with(|descriptor| registry.register(descriptor), &mut log), Ok(()));
    let mut second = LifecycleController::new();
    let result = second.init_with(|descriptor| registry.register(descriptor), &mut log);
    assert_eq!(result, Err(-16));
    assert!(!second.is_registered());
    assert_eq!(log, vec![Diagnostic::ModuleInit]);
}

#[test]
fn failed_init_leaves_no_device_to_open() {
    let mut log = Vec::new();
    let mut controller = LifecycleController::<u32>::new();
    assert_eq!(controller.init(Err(-12), &mut log), Err(-12));
    assert_eq!(controller.open_session(true, &mut log), Err(DeviceError::NoSuchDevice));
    assert_eq!(controller.open_session(false, &mut log), Err(DeviceError::NoSuchDevice));
    assert_eq!(controller.open_session(true, &mut log), Err(DeviceError::NoSuchDevice));
    assert!(log.is_empty());
}

#[test]
fn device_cannot_be_opened_before_init() {
    let mut log = Vec::new();
    let controller = LifecycleController::<u32>::new();
    assert_eq!(controller.open_session(true, &mut log), Err(DeviceError::NoSuchDevice));
    assert!(log.is_empty());
}

#[test]
fn registered_device_opens() {
    let controller = started(5);
    let mut log = Vec::new();
    assert!(controller.open_session(true, &mut log).is_ok());
    assert_eq!(log, vec![Diagnostic::Open]);
}

#[test]
fn registered_device_reports_allocation_failure() {
    let controller = started(5);
    let mut log = Vec::new();
    assert_eq!(controller.open_session(false, &mut log), Err(DeviceError::OutOfMemory));
    assert_eq!(log, vec![Diagnostic::Open]);
    assert!(controller.open_session(true, &mut log).is_ok());
}

#[test]
fn sequential_opens_and_releases_each_succeed() {
    let controller = started(5);
    let mut log = Vec::new();
    let mut live = 0usize;
    for _ in 0..4 {
        let session = controller.open_session(true, &mut log).expect("the device is registered");
        live += 1;
        session.release(&mut log);
        live -= 1;
        assert!(controller.is_registered());
    }
    assert_eq!(live, 0);
    assert_eq!(
        log,
        vec![
            Diagnostic::Open,
            Diagnostic::Release,
            Diagnostic::Open,
            Diagnostic::Release,
            Diagnostic::Open,
            Diagnostic::Release,
            Diagnostic::Open,
            Diagnostic::Release,
        ]
    );
}

#[test]
fn overlapping_sessions_are_independent() {
    let controller = started(5);
    let mut log = Vec::new();
    let first = controller.open_session(true, &mut log).expect("the device is registered");
    let second = controller.open_session(true, &mut log).expect("the device is registered");
    assert_eq!(
        first.dispatch_with(RUST_MISC_DEV_CPUTEMP, 0, |_| Some(1u8), |_| Some(45234), &mut log),
        Ok(45)
    );
    first.release(&mut log);
    assert_eq!(
        second.dispatch_with(RUST_MISC_DEV_CPUTEMP, 0, |_| Some(1u8), |_| Some(-5000), &mut log),
        Ok(-5)
    );
    second.release(&mut log);
}

#[test]
fn exit_hands_the_handle_back_and_reports() {
    let mut controller = started(9);
    let mut log = Vec::new();
    assert_eq!(controller.exit(&mut log), Some(9));
    assert!(!controller.is_registered());
    assert_eq!(log, vec![Diagnostic::ModuleExit]);
}

#[test]
fn exit_without_registration_does_nothing() {
    let mut controller = started(9);
    let mut log = Vec::new();
    assert_eq!(controller.exit(&mut log), Some(9));
    assert_eq!(controller.exit(&mut log), None);
    assert_eq!(log, vec![Diagnostic::ModuleExit]);
    let mut never_started = LifecycleController::<u32>::new();
    assert_eq!(never_started.exit(&mut log), None);
    assert_eq!(log, vec![Diagnostic::ModuleExit]);
}

#[test]
fn exit_makes_open_fail_with_no_such_device() {
    let mut controller = started(9);
    let mut log = Vec::new();
    assert!(controller.open_session(true, &mut log).is_ok());
    controller.exit(&mut log);
    assert_eq!(controller.open_session(true, &mut log), Err(DeviceError::NoSuchDevice));
    assert_eq!(controller.open_session(false, &mut log), Err(DeviceError::NoSuchDevice));
    assert_eq!(log, vec![Diagnostic::Open, Diagnostic::ModuleExit]);
}

#[test]
fn open_session_outlives_exit() {
    let mut controller = started(9);
    let mut log = Vec::new();
    let session = controller.open_session(true, &mut log).expect("the device is registered");
    controller.exit(&mut log);
    assert_eq!(
        session.dispatch_with(RUST_MISC_DEV_CPUTEMP, 0, |_| Some(1u8), |_| Some(999), &mut log),
        Ok(0)
    );
    session.release(&mut log);
    assert_eq!(
        log,
        vec![Diagnostic::Open, Diagnostic::ModuleExit, Diagnostic::Dispatch, Diagnostic::Release]
    );
}

#[test]
fn controller_can_start_again_after_exit() {
    let mut controller = started(9);
    let mut log = Vec::new();
    controller.exit(&mut log);
    assert_eq!(controller.init(Ok::<u32, i32>(10), &mut log), Ok(()));
    assert!(controller.open_session(true, &mut log).is_ok());
    assert_eq!(log, vec![Diagnostic::ModuleExit, Diagnostic::ModuleInit, Diagnostic::Open]);
}
