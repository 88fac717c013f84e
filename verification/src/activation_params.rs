//! The activation-parameters blob for process-loopback capture, as
//! plain values.
//!
//! The platform wants these fields packed into a task-allocated
//! property-variant blob whose lifetime is scoped to the activation
//! call; that packing, the allocation and the release are platform
//! work at the operating-system boundary, which copies these fields
//! into the blob one for one.

use vstd::prelude::*;

verus! {

/// Activation-type value asking for process-loopback capture.
pub const AUDIOCLIENT_ACTIVATION_TYPE_PROCESS_LOOPBACK: u32 = 1;

/// Loopback-mode value that includes the target process's child
/// tree.
pub const PROCESS_LOOPBACK_MODE_INCLUDE_TARGET_PROCESS_TREE: u32 = 0;

/// What a process-loopback activation asks for: the target process
/// and how its tree is included.
#[derive(Debug, Clone, Copy, PartialEq, Eq, Structural)]
pub struct SafeActivationParams {
    pub activation_type: u32,
    pub process_loopback_mode: u32,
    pub target_process_id: u32,
}

impl SafeActivationParams {
    /// Parameters capturing the audio of `pid` and its process tree.
    pub fn new(pid: u32) -> (r: SafeActivationParams)
        ensures
            r.activation_type == AUDIOCLIENT_ACTIVATION_TYPE_PROCESS_LOOPBACK,
            r.process_loopback_mode == PROCESS_LOOPBACK_MODE_INCLUDE_TARGET_PROCESS_TREE,
            r.target_process_id == pid,
    {
        SafeActivationParams {
            activation_type: AUDIOCLIENT_ACTIVATION_TYPE_PROCESS_LOOPBACK,
            process_loopback_mode: PROCESS_LOOPBACK_MODE_INCLUDE_TARGET_PROCESS_TREE,
            target_process_id: pid,
        }
    }
}

} // verus!
