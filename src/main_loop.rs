use vstd::prelude::*;
use crate::capabilities::MainLoopCapability;
use crate::fault::{fault_transition, ThresholdRestartThenPanic};
use crate::kernel::Kernel;
use crate::process::State;
use crate::returncode::{register_word, ReturnCode};
use crate::sched::{rr_step, RoundRobinScheduler};
use crate::syscall::{
    decode_syscall, handle_syscall, handle_trap, returned, spec_decode, spec_dispatch, Dispatch, Platform, Syscall,
    SVC_YIELD,
};

verus! {

/// Why a process gave control back to the kernel.
#[derive(Clone, Copy, Debug, PartialEq, Eq, Structural)]
pub enum SwitchReason {
    /// It trapped into the kernel with a system call.
    SyscallFired { svc: u8, r0: usize, r1: usize, r2: usize, r3: usize },
    /// It faulted.
    Fault,
    /// Its timeslice ran out.
    TimesliceExpired,
}

/// Picks the next process to run and hands it its oldest pending task, if
/// it has one. Returns the slot to switch to.
pub fn select_next(kernel: &mut Kernel, sched: &mut RoundRobinScheduler, _cap: &MainLoopCapability) -> (r: Option<usize>)
    requires
        old(kernel).wf(),
    ensures
        final(kernel).wf(),
        (r, final(sched)@) == rr_step(old(sched)@, *old(kernel)),
        r.is_none() ==> *final(kernel) == *old(kernel),
        r.is_some() ==> exists|t: Option<crate::process::Task>| old(kernel).delivered(*final(kernel), r.unwrap() as int, t),
{
    let next = sched.next(kernel);
    match next {
        None => None,
        Some(i) => {
            let _ = kernel.deliver_task(i);
            Some(i)
        },
    }
}

/// Acts on the reason the process in slot `i` stopped running. A system
/// call is served, and a yield is followed at once by the delivery of the
/// process's oldest pending task; a fault goes through the fault policy; an
/// expired timeslice leaves everything as it is. Returns the result of a
/// system call other than a yield.
pub fn handle_switch<P: Platform>(
    kernel: &mut Kernel,
    platform: &mut P,
    policy: &ThresholdRestartThenPanic,
    i: usize,
    reason: SwitchReason,
    _cap: &MainLoopCapability,
) -> (r: Option<ReturnCode>)
    requires
        old(kernel).wf(),
    ensures
        final(kernel).wf(),
        final(kernel).slots().len() == old(kernel).slots().len(),
        reason == SwitchReason::TimesliceExpired ==> r.is_none() && *final(kernel) == *old(kernel)
            && *final(platform) == *old(platform),
        reason == SwitchReason::Fault ==> {
            &&& r.is_none()
            &&& *final(platform) == *old(platform)
            &&& old(kernel).occupied(i as int) ==> {
                let p = old(kernel).proc(i as int);
                let t = fault_transition(p.state, p.restart_count as nat, policy.threshold as nat);
                &&& final(kernel).same_except(*old(kernel), i as int)
                &&& final(kernel).proc(i as int).state == t.0
                &&& final(kernel).proc(i as int).restart_count == t.1
            }
        },
        (match reason {
            SwitchReason::SyscallFired { svc, r0, r1, r2, r3 } => {
                &&& svc == SVC_YIELD && old(kernel).occupied(i as int) ==> {
                    let p = old(kernel).proc(i as int);
                    let q = final(kernel).proc(i as int);
                    &&& r.is_none()
                    &&& *final(platform) == *old(platform)
                    &&& final(kernel).same_except(*old(kernel), i as int)
                    &&& p.state != State::Panicked && p.tasks@.len() > 0 ==> q.state == State::Running
                        && q.tasks@ == p.tasks@.drop_first()
                    &&& p.state != State::Panicked && p.tasks@.len() == 0 ==> q.state == State::Yielded
                        && q.tasks@ == p.tasks@ && q.context == p.context
                }
                &&& svc != SVC_YIELD && old(kernel).occupied(i as int) ==> r.is_some()
                &&& old(kernel).occupied(i as int) ==> match spec_decode(svc, r0, r1, r2, r3) {
                    Some(call) => match spec_dispatch(old(kernel).proc(i as int), call) {
                        Dispatch::Refuse(rc) => r == Some(rc) && *final(platform) == *old(platform)
                            && returned(*old(kernel), *final(kernel), i as int, rc),
                        _ => true,
                    },
                    None => true,
                }
                &&& spec_decode(svc, r0, r1, r2, r3).is_none() && old(kernel).occupied(i as int) ==> r
                    == Some(ReturnCode::ENOSUPPORT)
                &&& r.is_some() && final(kernel).occupied(i as int) ==> final(kernel).proc(i as int).context.r0
                    == register_word(r.unwrap())
            },
            _ => true,
        }),
{
    match reason {
        SwitchReason::TimesliceExpired => None,
        SwitchReason::Fault => {
            let _ = kernel.handle_fault(i, policy);
            None
        },
        SwitchReason::SyscallFired { svc, r0, r1, r2, r3 } => {
            match decode_syscall(svc, r0, r1, r2, r3) {
                Some(Syscall::Yield) => {
                    let r = handle_syscall(kernel, platform, i, Syscall::Yield);
                    let _ = kernel.deliver_task(i);
                    r
                },
                Some(call) => handle_syscall(kernel, platform, i, call),
                None => handle_trap(kernel, platform, i, svc, r0, r1, r2, r3),
            }
        },
    }
}

} // verus!
