use cputemp::diagnostic::Diagnostic;

#[test]
fn each_event_has_its_line() {
    assert_eq!(Diagnostic::ModuleInit.message(), "Initialising Rust Misc Device CPU Temp\n");
    assert_eq!(Diagnostic::ModuleExit.message(), "Removing Rust Misc Device CPU Temp\n");
    assert_eq!(Diagnostic::Open.message(), "Opening Rust Misc Device CPU Temp\n");
    assert_eq!(Diagnostic::Dispatch.message(), "Hello from Rust Misc Device\n");
    assert_eq!(Diagnostic::Release.message(), "Exiting the Rust Misc Device CPU Temp\n");
}

#[test]
fn only_dispatch_is_dispatch_related() {
    assert!(Diagnostic::Dispatch.dispatch_related());
    assert!(!Diagnostic::ModuleInit.dispatch_related());
    assert!(!Diagnostic::ModuleExit.dispatch_related());
    assert!(!Diagnostic::Open.dispatch_related());
    assert!(!Diagnostic::Release.dispatch_related());
}
