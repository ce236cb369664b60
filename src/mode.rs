//! The processor mode a request came from.
use vstd::prelude::*;

verus! {

/// `KernelMode` as the runtime encodes it.
pub const KERNEL_MODE: i8 = 0;

/// `UserMode` as the runtime encodes it.
pub const USER_MODE: i8 = 1;

/// The processor mode, telling where e.g. a request came from.
#[derive(Debug, Clone, Copy, PartialEq, Eq, Structural, Hash)]
pub enum ProcessorMode {
    /// Kernel mode, skipping any privilege checks.
    KernelMode,
    /// User mode, validating any privilege checks.
    UserMode,
}

impl ProcessorMode {
    /// The runtime's encoding of this mode.
    pub open spec fn raw(self) -> i8 {
        match self {
            ProcessorMode::KernelMode => KERNEL_MODE,
            ProcessorMode::UserMode => USER_MODE,
        }
    }

    /// Classifies a mode the runtime reported; the runtime reports no other value than the
    /// two modes.
    pub fn from_kprocessor_mode_unchecked(mode: i8) -> (r: ProcessorMode)
        requires
            mode == KERNEL_MODE || mode == USER_MODE,
        ensures
            r.raw() == mode,
    {
        if mode == KERNEL_MODE {
            ProcessorMode::KernelMode
        } else {
            ProcessorMode::UserMode
        }
    }

    /// The runtime's encoding of this mode.
    pub fn to_kprocessor_mode(self) -> (r: i8)
        ensures
            r == self.raw(),
    {
        match self {
            ProcessorMode::KernelMode => KERNEL_MODE,
            ProcessorMode::UserMode => USER_MODE,
        }
    }
}

} // verus!
