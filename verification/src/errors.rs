//! Error kinds for the injection toolkit.
//!
//! Every core operation reports failure through one of these typed values
//! instead of terminating the process; each kind names the step that failed.

use vstd::prelude::*;

verus! {

/// The failure kinds of the toolkit, one per failing step.
#[derive(Clone, Copy, Debug, PartialEq, Eq, Structural)]
pub enum Error {
    /// The configuration selects no usable target or module.
    ConfigError,
    /// No live process matches the given pid or name.
    ProcessNotFound,
    /// Loading the module into the target process failed.
    InjectionError,
    /// An exported procedure is absent or its declared signature mismatches.
    ProcedureNotFound,
    /// Dispatching a call to a resolved procedure failed.
    CallError,
    /// The target process died while the session awaited unload.
    TargetDied,
    /// Invalidating the module handle failed.
    EjectError,
    /// An argument blob does not match the declared parameter schema.
    MarshalError,
}

impl Error {
    /// The human-readable description of this error kind.
    pub open spec fn message_spec(self) -> Seq<char> {
        match self {
            Error::ConfigError => "invalid configuration"@,
            Error::ProcessNotFound => "no matching live process found"@,
            Error::InjectionError => "failed to inject module"@,
            Error::ProcedureNotFound => "failed to resolve procedure"@,
            Error::CallError => "failed to call procedure"@,
            Error::TargetDied => "target process died while waiting for unload"@,
            Error::EjectError => "failed to eject module"@,
            Error::MarshalError => "argument blob does not match schema"@,
        }
    }

    /// Render the error as a line naming the failing step.
    pub fn message(&self) -> (r: String)
        ensures
            r@ == self.message_spec(),
    {
        match self {
            Error::ConfigError => String::from_str("invalid configuration"),
            Error::ProcessNotFound => String::from_str("no matching live process found"),
            Error::InjectionError => String::from_str("failed to inject module"),
            Error::ProcedureNotFound => String::from_str("failed to resolve procedure"),
            Error::CallError => String::from_str("failed to call procedure"),
            Error::TargetDied => String::from_str("target process died while waiting for unload"),
            Error::EjectError => String::from_str("failed to eject module"),
            Error::MarshalError => String::from_str("argument blob does not match schema"),
        }
    }
}

} // verus!
