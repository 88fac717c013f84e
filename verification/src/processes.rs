//! Queries over the sessions of running processes.
//!
//! The walk over render endpoints and their session enumerators is a
//! platform walk at the operating-system boundary; it builds
//! `Session` values through `Session::from_parts` and keeps the
//! non-system ones with `SessionManager::retain_non_system`, the same
//! selection every session query in this crate uses.

use vstd::prelude::*;

use crate::manager::PlatformError;

verus! {

/// What went wrong while querying process sessions.
#[derive(Clone, Debug, PartialEq, Eq, Structural)]
pub enum ProcessesError {
    InstanceCreationError(PlatformError),
    DeviceCollectionError(PlatformError),
    DeviceCountError(PlatformError),
    DeviceError(PlatformError),
    DeviceActivationError(PlatformError),
    SessionEnumeratorError(PlatformError),
    SessionCountError(PlatformError),
    SessionError(PlatformError),
    SessionCastError(PlatformError),
    ProcessIdError(PlatformError),
    DisplayNameError(PlatformError),
}

/// Fronts the per-process session walk.
#[derive(Debug)]
pub struct ProcessesManager {}

impl ProcessesManager {
    pub fn new() -> (r: Result<ProcessesManager, ProcessesError>)
        ensures
            r is Ok,
    {
        Ok(ProcessesManager {  })
    }
}

} // verus!
