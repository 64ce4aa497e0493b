use vstd::prelude::*;
use crate::callback::{Callback, CallbackId};
use crate::kernel::Kernel;
use crate::process::{AppId, Context, Process};
use crate::returncode::{register_word, ReturnCode};

verus! {

/// A system call as decoded from the trap number and the argument registers.
#[derive(Clone, Copy, Debug, PartialEq, Eq, Structural)]
pub enum Syscall {
    Yield,
    Subscribe { driver_number: usize, subdriver_number: usize, callback_ptr: usize, appdata: usize },
    Command { driver_number: usize, subdriver_number: usize, arg0: usize, arg1: usize },
    Allow { driver_number: usize, subdriver_number: usize, allow_address: usize, allow_size: usize },
}

/// Trap numbers of the four system-call classes.
pub const SVC_YIELD: u8 = 0;
pub const SVC_SUBSCRIBE: u8 = 1;
pub const SVC_COMMAND: u8 = 2;
pub const SVC_ALLOW: u8 = 3;

pub open spec fn spec_decode(svc: u8, r0: usize, r1: usize, r2: usize, r3: usize) -> Option<Syscall> {
    if svc == SVC_YIELD {
        Some(Syscall::Yield)
    } else if svc == SVC_SUBSCRIBE {
        Some(Syscall::Subscribe { driver_number: r0, subdriver_number: r1, callback_ptr: r2, appdata: r3 })
    } else if svc == SVC_COMMAND {
        Some(Syscall::Command { driver_number: r0, subdriver_number: r1, arg0: r2, arg1: r3 })
    } else if svc == SVC_ALLOW {
        Some(Syscall::Allow { driver_number: r0, subdriver_number: r1, allow_address: r2, allow_size: r3 })
    } else {
        None
    }
}

/// Decodes a trap; `None` for a number that names no system call.
pub fn decode_syscall(svc: u8, r0: usize, r1: usize, r2: usize, r3: usize) -> (r: Option<Syscall>)
    ensures
        r == spec_decode(svc, r0, r1, r2, r3),
{
    if svc == SVC_YIELD {
        Some(Syscall::Yield)
    } else if svc == SVC_SUBSCRIBE {
        Some(Syscall::Subscribe { driver_number: r0, subdriver_number: r1, callback_ptr: r2, appdata: r3 })
    } else if svc == SVC_COMMAND {
        Some(Syscall::Command { driver_number: r0, subdriver_number: r1, arg0: r2, arg1: r3 })
    } else if svc == SVC_ALLOW {
        Some(Syscall::Allow { driver_number: r0, subdriver_number: r1, allow_address: r2, allow_size: r3 })
    } else {
        None
    }
}

/// A buffer of a process shared with a driver, checked to lie inside the
/// memory that process may touch.
#[derive(Clone, Copy, Debug, PartialEq, Eq, Structural)]
pub struct AppSlice {
    pub app_id: AppId,
    pub ptr: usize,
    pub len: usize,
}

/// What every driver offers processes.
pub trait Driver {
    fn subscribe(
        &mut self,
        kernel: &mut Kernel,
        subscribe_num: usize,
        callback: Option<Callback>,
        app_id: AppId,
    ) -> (r: ReturnCode)
        requires
            old(kernel).wf(),
        ensures
            final(kernel).wf(),
            final(kernel).slots().len() == old(kernel).slots().len(),
    ;

    fn command(
        &mut self,
        kernel: &mut Kernel,
        command_num: usize,
        arg0: usize,
        arg1: usize,
        app_id: AppId,
    ) -> (r: ReturnCode)
        requires
            old(kernel).wf(),
        ensures
            final(kernel).wf(),
            final(kernel).slots().len() == old(kernel).slots().len(),
    ;

    fn allow(
        &mut self,
        kernel: &mut Kernel,
        app_id: AppId,
        allow_num: usize,
        slice: Option<AppSlice>,
    ) -> (r: ReturnCode)
        requires
            old(kernel).wf(),
        ensures
            final(kernel).wf(),
            final(kernel).slots().len() == old(kernel).slots().len(),
    ;
}

/// The board's table of drivers: each call reaches the driver registered
/// under `driver_num`, and is `None` when there is none.
pub trait Platform {
    fn command(
        &mut self,
        kernel: &mut Kernel,
        driver_num: usize,
        command_num: usize,
        arg0: usize,
        arg1: usize,
        app_id: AppId,
    ) -> (r: Option<ReturnCode>)
        requires
            old(kernel).wf(),
        ensures
            final(kernel).wf(),
            final(kernel).slots().len() == old(kernel).slots().len(),
    ;

    fn subscribe(
        &mut self,
        kernel: &mut Kernel,
        driver_num: usize,
        subscribe_num: usize,
        callback: Option<Callback>,
        app_id: AppId,
    ) -> (r: Option<ReturnCode>)
        requires
            old(kernel).wf(),
        ensures
            final(kernel).wf(),
            final(kernel).slots().len() == old(kernel).slots().len(),
    ;

    fn allow(
        &mut self,
        kernel: &mut Kernel,
        driver_num: usize,
        allow_num: usize,
        slice: Option<AppSlice>,
        app_id: AppId,
    ) -> (r: Option<ReturnCode>)
        requires
            old(kernel).wf(),
        ensures
            final(kernel).wf(),
            final(kernel).slots().len() == old(kernel).slots().len(),
    ;
}

/// `k` is `k0` with only the return register of slot `i` set to `rc`'s word.
pub open spec fn returned(k0: Kernel, k: Kernel, i: int, rc: ReturnCode) -> bool {
    let p = k0.proc(i);
    let q = k.proc(i);
    &&& k.same_except(k0, i)
    &&& k.same_layout(k0, i)
    &&& q.state == p.state
    &&& q.tasks == p.tasks
    &&& q.kernel_break == p.kernel_break
    &&& q.restart_count == p.restart_count
    &&& q.context == Context { r0: register_word(rc), ..p.context }
}

/// A request to the driver named by its driver number.
#[derive(Clone, Copy, Debug, PartialEq, Eq, Structural)]
pub enum DriverCall {
    Command { driver_num: usize, command_num: usize, arg0: usize, arg1: usize },
    Subscribe { driver_num: usize, subscribe_num: usize, callback: Option<Callback> },
    Allow { driver_num: usize, allow_num: usize, slice: Option<AppSlice> },
}

/// What the kernel makes of one system call.
#[derive(Clone, Copy, Debug, PartialEq, Eq, Structural)]
pub enum Dispatch {
    /// The process gives up its timeslice.
    Yield,
    /// The call is answered at once with this code; no driver sees it.
    Refuse(ReturnCode),
    /// The call goes to a driver.
    Call(DriverCall),
}

/// How system call `call` of process `p` is dispatched. A subscribe with a
/// null function is an unsubscribe; an allow of a buffer not wholly inside
/// the memory `p` may touch is refused with `EINVAL`.
pub open spec fn spec_dispatch(p: Process, call: Syscall) -> Dispatch {
    match call {
        Syscall::Yield => Dispatch::Yield,
        Syscall::Command { driver_number, subdriver_number, arg0, arg1 } => Dispatch::Call(
            DriverCall::Command { driver_num: driver_number, command_num: subdriver_number, arg0, arg1 },
        ),
        Syscall::Subscribe { driver_number, subdriver_number, callback_ptr, appdata } => Dispatch::Call(
            DriverCall::Subscribe {
                driver_num: driver_number,
                subscribe_num: subdriver_number,
                callback: if callback_ptr == 0 {
                    None
                } else {
                    Some(
                        Callback {
                            app_id: p.app_id,
                            callback_id: CallbackId { driver_num: driver_number, subscribe_num: subdriver_number },
                            appdata,
                            fn_ptr: callback_ptr,
                        },
                    )
                },
            },
        ),
        Syscall::Allow { driver_number, subdriver_number, allow_address, allow_size } => if !p.spec_accessible(allow_address as int, allow_size as int) {
            Dispatch::Refuse(ReturnCode::EINVAL)
        } else {
            Dispatch::Call(
                DriverCall::Allow {
                    driver_num: driver_number,
                    allow_num: subdriver_number,
                    slice: Some(AppSlice { app_id: p.app_id, ptr: allow_address, len: allow_size }),
                },
            )
        },
    }
}

/// An allow of a buffer that reaches outside the memory the process may
/// touch is always answered with `EINVAL` and never handed to a driver.
pub proof fn lemma_allow_out_of_bounds_refused(p: Process, call: Syscall)
    requires
        call is Allow,
        !p.spec_accessible(call->allow_address as int, call->allow_size as int),
    ensures
        spec_dispatch(p, call) == Dispatch::Refuse(ReturnCode::EINVAL),
{
}

/// Decides how system call `call` of process `p` is dispatched.
pub fn plan_syscall(p: &Process, call: Syscall) -> (r: Dispatch)
    requires
        p.wf(),
    ensures
        r == spec_dispatch(*p, call),
{
    match call {
        Syscall::Yield => Dispatch::Yield,
        Syscall::Command { driver_number, subdriver_number, arg0, arg1 } => Dispatch::Call(
            DriverCall::Command { driver_num: driver_number, command_num: subdriver_number, arg0, arg1 },
        ),
        Syscall::Subscribe { driver_number, subdriver_number, callback_ptr, appdata } => {
            let callback = if callback_ptr == 0 {
                None
            } else {
                Some(
                    Callback::new(
                        p.app_id,
                        CallbackId { driver_num: driver_number, subscribe_num: subdriver_number },
                        appdata,
                        callback_ptr,
                    ),
                )
            };
            Dispatch::Call(
                DriverCall::Subscribe { driver_num: driver_number, subscribe_num: subdriver_number, callback },
            )
        },
        Syscall::Allow { driver_number, subdriver_number, allow_address, allow_size } => {
            if !p.accessible(allow_address, allow_size) {
                Dispatch::Refuse(ReturnCode::EINVAL)
            } else {
                Dispatch::Call(
                    DriverCall::Allow {
                        driver_num: driver_number,
                        allow_num: subdriver_number,
                        slice: Some(AppSlice { app_id: p.app_id, ptr: allow_address, len: allow_size }),
                    },
                )
            }
        },
    }
}

/// The code a process gets for a driver's answer; `None`, no driver under
/// that number, gives `ENODEVICE`.
pub open spec fn spec_completion(answer: Option<ReturnCode>) -> ReturnCode {
    match answer {
        Some(c) => c,
        None => ReturnCode::ENODEVICE,
    }
}

/// Turns the platform's answer to a driver call into the process's result.
pub fn complete_call(answer: Option<ReturnCode>) -> (rc: ReturnCode)
    ensures
        rc == spec_completion(answer),
{
    match answer {
        Some(c) => c,
        None => ReturnCode::ENODEVICE,
    }
}

/// Hands `c` to the platform on behalf of process `app_id`.
fn call_platform<P: Platform>(kernel: &mut Kernel, platform: &mut P, app_id: AppId, c: DriverCall) -> (r: Option<ReturnCode>)
    requires
        old(kernel).wf(),
    ensures
        final(kernel).wf(),
        final(kernel).slots().len() == old(kernel).slots().len(),
{
    match c {
        DriverCall::Command { driver_num, command_num, arg0, arg1 } => platform.command(
            kernel,
            driver_num,
            command_num,
            arg0,
            arg1,
            app_id,
        ),
        DriverCall::Subscribe { driver_num, subscribe_num, callback } => platform.subscribe(
            kernel,
            driver_num,
            subscribe_num,
            callback,
            app_id,
        ),
        DriverCall::Allow { driver_num, allow_num, slice } => platform.allow(kernel, driver_num, allow_num, slice, app_id),
    }
}

/// Serves system call `call` of the process in slot `i` as `plan_syscall`
/// decides, and writes the result into its return register. A yield only
/// marks the process as yielded. A refused call never reaches a driver; a
/// call to a driver number with no driver gives `ENODEVICE`.
pub fn handle_syscall<P: Platform>(kernel: &mut Kernel, platform: &mut P, i: usize, call: Syscall) -> (r: Option<ReturnCode>)
    requires
        old(kernel).wf(),
    ensures
        final(kernel).wf(),
        final(kernel).slots().len() == old(kernel).slots().len(),
        !old(kernel).occupied(i as int) ==> r.is_none() && *final(kernel) == *old(kernel) && *final(platform) == *old(platform),
        old(kernel).occupied(i as int) ==> match spec_dispatch(old(kernel).proc(i as int), call) {
            Dispatch::Yield => {
                let p = old(kernel).proc(i as int);
                let q = final(kernel).proc(i as int);
                &&& r.is_none()
                &&& *final(platform) == *old(platform)
                &&& final(kernel).same_except(*old(kernel), i as int)
                &&& final(kernel).same_layout(*old(kernel), i as int)
                &&& q.state == (if p.state == crate::process::State::Panicked {
                    crate::process::State::Panicked
                } else {
                    crate::process::State::Yielded
                })
                &&& q.tasks == p.tasks
                &&& q.context == p.context
            },
            Dispatch::Refuse(rc) => {
                &&& r == Some(rc)
                &&& *final(platform) == *old(platform)
                &&& returned(*old(kernel), *final(kernel), i as int, rc)
            },
            Dispatch::Call(_) => r.is_some(),
        },
        r.is_some() && final(kernel).occupied(i as int) ==> final(kernel).proc(i as int).context.r0
            == register_word(r.unwrap()),
{
    let d = match kernel.process(i) {
        None => {
            return None;
        },
        Some(p) => plan_syscall(p, call),
    };
    let app_id = kernel.process(i).unwrap().app_id;
    match d {
        Dispatch::Yield => {
            kernel.set_yielded(i);
            None
        },
        Dispatch::Refuse(rc) => {
            kernel.set_syscall_return_value(i, rc.to_register());
            Some(rc)
        },
        Dispatch::Call(c) => {
            let answer = call_platform(kernel, platform, app_id, c);
            let rc = complete_call(answer);
            kernel.set_syscall_return_value(i, rc.to_register());
            Some(rc)
        },
    }
}

/// Decodes and serves a trap of the process in slot `i`. A trap number that
/// names no system call is answered with `ENOSUPPORT`; it never stops the
/// kernel.
pub fn handle_trap<P: Platform>(
    kernel: &mut Kernel,
    platform: &mut P,
    i: usize,
    svc: u8,
    r0: usize,
    r1: usize,
    r2: usize,
    r3: usize,
) -> (r: Option<ReturnCode>)
    requires
        old(kernel).wf(),
    ensures
        final(kernel).wf(),
        final(kernel).slots().len() == old(kernel).slots().len(),
        old(kernel).occupied(i as int) && spec_decode(svc, r0, r1, r2, r3).is_none() ==> {
            &&& r == Some(ReturnCode::ENOSUPPORT)
            &&& *final(platform) == *old(platform)
            &&& returned(*old(kernel), *final(kernel), i as int, ReturnCode::ENOSUPPORT)
        },
        !old(kernel).occupied(i as int) ==> r.is_none() && *final(kernel) == *old(kernel) && *final(platform) == *old(platform),
        r.is_some() && final(kernel).occupied(i as int) ==> final(kernel).proc(i as int).context.r0
            == register_word(r.unwrap()),
{
    match decode_syscall(svc, r0, r1, r2, r3) {
        Some(call) => handle_syscall(kernel, platform, i, call),
        None => {
            if kernel.process(i).is_none() {
                return None;
            }
            kernel.set_syscall_return_value(i, ReturnCode::ENOSUPPORT.to_register());
            Some(ReturnCode::ENOSUPPORT)
        },
    }
}

} // verus!
