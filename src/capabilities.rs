use vstd::prelude::*;

verus! {

/// Held by code allowed to load, restart and resume processes.
pub struct ProcessManagementCapability {
    _private: (),
}

/// Held by code allowed to create grants, which take process memory.
pub struct MemoryAllocationCapability {
    _private: (),
}

/// Held by the code that runs the kernel's main loop.
pub struct MainLoopCapability {
    _private: (),
}

/// The set of tokens handed out once, at kernel start-up.
pub struct Capabilities {
    pub process_management: ProcessManagementCapability,
    pub memory_allocation: MemoryAllocationCapability,
    pub main_loop: MainLoopCapability,
}

impl Capabilities {
    pub(crate) fn create() -> Capabilities {
        Capabilities {
            process_management: ProcessManagementCapability { _private: () },
            memory_allocation: MemoryAllocationCapability { _private: () },
            main_loop: MainLoopCapability { _private: () },
        }
    }
}

} // verus!
