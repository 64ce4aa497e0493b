use vstd::prelude::*;
use crate::kernel::Kernel;
use crate::process::{AppId, FunctionCall, FunctionCallSource, Task};

verus! {

/// Identifies a subscription slot: the driver and the subscribe number
/// within that driver.
#[derive(Clone, Copy, Debug, PartialEq, Eq, Structural)]
pub struct CallbackId {
    pub driver_num: usize,
    pub subscribe_num: usize,
}

/// A function of a process that a driver may ask to have called, with the
/// word the process supplied when it subscribed.
#[derive(Clone, Copy, Debug, PartialEq, Eq, Structural)]
pub struct Callback {
    pub app_id: AppId,
    pub callback_id: CallbackId,
    pub appdata: usize,
    pub fn_ptr: usize,
}

impl Callback {
    pub fn new(app_id: AppId, callback_id: CallbackId, appdata: usize, fn_ptr: usize) -> (r: Callback)
        ensures
            r == (Callback { app_id, callback_id, appdata, fn_ptr }),
    {
        Callback { app_id, callback_id, appdata, fn_ptr }
    }

    /// The upcall that `schedule(r0, r1, r2)` queues.
    pub open spec fn task(&self, r0: usize, r1: usize, r2: usize) -> Task {
        Task::FunctionCall(
            FunctionCall {
                source: FunctionCallSource::Driver(self.callback_id),
                argument0: r0,
                argument1: r1,
                argument2: r2,
                argument3: self.appdata,
                pc: self.fn_ptr,
            },
        )
    }

    /// Queues a call of this callback with arguments `r0`, `r1`, `r2` and the
    /// subscriber's word. Returns `false` when the process is gone or its
    /// queue is full: the call is then dropped.
    pub fn schedule(&mut self, kernel: &mut Kernel, r0: usize, r1: usize, r2: usize) -> (r: bool)
        requires
            old(kernel).wf(),
        ensures
            final(kernel).wf(),
            *final(self) == *old(self),
            old(kernel).enqueued(*final(kernel), old(self).app_id, old(self).task(r0, r1, r2), r),
    {
        let task = Task::FunctionCall(
            FunctionCall {
                source: FunctionCallSource::Driver(self.callback_id),
                argument0: r0,
                argument1: r1,
                argument2: r2,
                argument3: self.appdata,
                pc: self.fn_ptr,
            },
        );
        kernel.enqueue_task(self.app_id, task)
    }
}

} // verus!
