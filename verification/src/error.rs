//! Why a boot was aborted.

use crate::context::Capability;
use crate::lifecycle::Stage;
use vstd::prelude::*;

verus! {

/// The reasons for which a boot is aborted. `E` is the cause as the failing
/// step reported it; it is carried unchanged.
#[derive(Debug, PartialEq, Eq)]
pub enum BootError<E> {
    /// The configuration is missing or malformed.
    ConfigError(E),
    /// The persistence connection could not be opened.
    PersistenceUnavailable(E),
    /// A subsystem that the boot cannot do without could not be set up.
    CapabilityUnavailable { capability: Capability, cause: E },
    /// A step that belongs to no resource and to no extension failed at
    /// the named stage: a callback of the customization, or one of the
    /// host's own steps there, the default logging and the one-shot run.
    CustomizationFailure { stage: Stage, cause: E },
    /// A callback of the named extension failed.
    ExtensionFailure { name: String, cause: E },
    /// The listener could not attach to the requested address.
    BindError(E),
    /// The host reported an outcome that the step pending at the named
    /// stage cannot have.
    OutOfSequence { stage: Stage },
}

impl<E> BootError<E> {
    /// The cause that the failing step reported, where there is one.
    pub open spec fn cause_spec(self) -> Option<E> {
        match self {
            BootError::ConfigError(c) => Some(c),
            BootError::PersistenceUnavailable(c) => Some(c),
            BootError::CapabilityUnavailable { cause, .. } => Some(cause),
            BootError::CustomizationFailure { cause, .. } => Some(cause),
            BootError::ExtensionFailure { cause, .. } => Some(cause),
            BootError::BindError(c) => Some(c),
            BootError::OutOfSequence { .. } => None,
        }
    }

    /// The cause that the failing step reported, where there is one.
    pub fn cause(&self) -> (c: Option<&E>)
        ensures
            c == match self.cause_spec() {
                Some(e) => Some(&e),
                None => None,
            },
    {
        match self {
            BootError::ConfigError(c) => Some(c),
            BootError::PersistenceUnavailable(c) => Some(c),
            BootError::CapabilityUnavailable { cause, .. } => Some(cause),
            BootError::CustomizationFailure { cause, .. } => Some(cause),
            BootError::ExtensionFailure { cause, .. } => Some(cause),
            BootError::BindError(c) => Some(c),
            BootError::OutOfSequence { .. } => None,
        }
    }
}

} // verus!
