//! Process, grant and scheduling core of a small microcontroller kernel,
//! with the system-call dispatch protocol, and the capsules and peripheral
//! drivers of a few boards built on top of it.

pub mod board;
pub mod callback;
pub mod capabilities;
pub mod fault;
pub mod grant;
pub mod hil;
pub mod kernel;
pub mod loader;
pub mod main_loop;
pub mod msp432_timer;
pub mod nrf52_qdec;
pub mod nrf5x_qdec;
pub mod process;
pub mod qdec;
pub mod remote;
pub mod returncode;
pub mod sched;
pub mod syscall;

pub use callback::{Callback, CallbackId};
pub use capabilities::{Capabilities, MainLoopCapability, MemoryAllocationCapability, ProcessManagementCapability};
pub use fault::{FaultAction, ThresholdRestartThenPanic};
pub use grant::{Grant, GrantError};
pub use hil::{Alarm, InterruptPin, QdecClient, QdecDriver, SpiMasterDevice};
pub use kernel::Kernel;
pub use loader::{load_processes, LoadError};
pub use process::{AppId, Context, FunctionCall, FunctionCallSource, Process, State, Task, TaskQueue};
pub use returncode::ReturnCode;
pub use sched::RoundRobinScheduler;
pub use syscall::{complete_call, handle_syscall, handle_trap, plan_syscall, AppSlice, Dispatch, Driver, DriverCall, Platform, Syscall};
