//! Diagnostics: the events that the device reports as it works. Operations
//! append them to a log that the caller owns and may print or inspect.

use vstd::prelude::*;

verus! {

/// An event reported by the device.
#[derive(Clone, Copy, Debug, PartialEq, Eq, Structural)]
pub enum Diagnostic {
    /// The module registered its device.
    ModuleInit,
    /// The module gave up its registration.
    ModuleExit,
    /// A session is being opened.
    Open,
    /// A session received the recognized control code.
    Dispatch,
    /// A session was released.
    Release,
}

impl Diagnostic {
    /// Whether the event stems from a control-code request.
    pub open spec fn is_dispatch_related(self) -> bool {
        self == Diagnostic::Dispatch
    }

    /// The text of the event.
    pub open spec fn text(self) -> Seq<char> {
        match self {
            Diagnostic::ModuleInit => "Initialising Rust Misc Device CPU Temp\n"@,
            Diagnostic::ModuleExit => "Removing Rust Misc Device CPU Temp\n"@,
            Diagnostic::Open => "Opening Rust Misc Device CPU Temp\n"@,
            Diagnostic::Dispatch => "Hello from Rust Misc Device\n"@,
            Diagnostic::Release => "Exiting the Rust Misc Device CPU Temp\n"@,
        }
    }

    /// The line to print for the event.
    pub fn message(&self) -> (line: &'static str)
        ensures
            line@ == self.text(),
    {
        match self {
            Diagnostic::ModuleInit => "Initialising Rust Misc Device CPU Temp\n",
            Diagnostic::ModuleExit => "Removing Rust Misc Device CPU Temp\n",
            Diagnostic::Open => "Opening Rust Misc Device CPU Temp\n",
            Diagnostic::Dispatch => "Hello from Rust Misc Device\n",
            Diagnostic::Release => "Exiting the Rust Misc Device CPU Temp\n",
        }
    }

    /// Whether the event stems from a control-code request.
    pub fn dispatch_related(&self) -> (related: bool)
        ensures
            related == self.is_dispatch_related(),
    {
        match self {
            Diagnostic::Dispatch => true,
            _ => false,
        }
    }
}

} // verus!
