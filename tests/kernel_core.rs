use tock_kernel::kernel::KERNEL_MEMORY;
use tock_kernel::loader::{HEADER_LEN, IMAGE_MAGIC};
use tock_kernel::syscall::decode_syscall;
use tock_kernel::{complete_call, plan_syscall, Dispatch, DriverCall};
use tock_kernel::{
    handle_syscall, handle_trap, load_processes, AppId, AppSlice, Callback, CallbackId, Capabilities,
    Context, FaultAction, FunctionCall, FunctionCallSource, Grant, GrantError, Kernel, LoadError,
    Platform, ReturnCode, RoundRobinScheduler, State, Syscall, Task, TaskQueue,
    ThresholdRestartThenPanic,
};

const FLASH_BASE: usize = 0x0004_0000;
const MEM_BASE: usize = 0x2000_0000;

fn image(magic: u32, total: u32, ram: u32, entry: u32) -> Vec<u8> {
    let mut v = Vec::new();
    v.extend_from_slice(&magic.to_le_bytes());
    v.extend_from_slice(&total.to_le_bytes());
    v.extend_from_slice(&ram.to_le_bytes());
    v.extend_from_slice(&entry.to_le_bytes());
    while v.len() < total as usize {
        v.push(0xAA);
    }
    v
}

fn kernel_with(n_procs: usize, images: &[Vec<u8>], mem_size: usize) -> (Kernel, Capabilities, Vec<Result<AppId, LoadError>>) {
    let mut kernel = Kernel::new(n_procs, 4);
    let caps = kernel.take_capabilities().unwrap();
    let flash: Vec<u8> = images.concat();
    let r = load_processes(&mut kernel, &caps.process_management, &flash, FLASH_BASE, MEM_BASE, mem_size);
    (kernel, caps, r)
}

fn task(n: usize) -> Task {
    Task::FunctionCall(FunctionCall {
        source: FunctionCallSource::Kernel,
        argument0: n,
        argument1: 0,
        argument2: 0,
        argument3: 0,
        pc: 0x100 + n,
    })
}

#[test]
fn queue_fifo_and_overflow() {
    let n = 3;
    let mut q = TaskQueue::new(n);
    for i in 0..n {
        assert!(q.enqueue(task(i)));
    }
    assert_eq!(q.dropped(), 0);
    assert!(!q.enqueue(task(99)));
    assert_eq!(q.dropped(), 1);
    assert_eq!(q.len(), n);
    for i in 0..n {
        assert_eq!(q.dequeue(), Some(task(i)));
    }
    assert_eq!(q.dequeue(), None);
}

#[test]
fn queue_of_zero_capacity_drops_everything() {
    let mut q = TaskQueue::new(0);
    assert!(!q.enqueue(task(1)));
    assert!(!q.enqueue(task(2)));
    assert_eq!(q.dropped(), 2);
    assert_eq!(q.dequeue(), None);
}

#[test]
fn capabilities_are_issued_once() {
    let mut kernel = Kernel::new(2, 4);
    assert!(kernel.take_capabilities().is_some());
    assert!(kernel.take_capabilities().is_none());
}

#[test]
fn return_code_register_words() {
    assert_eq!(ReturnCode::SUCCESS.to_register(), 0);
    assert_eq!(ReturnCode::SuccessWithValue { value: 42 }.to_register(), 42);
    assert_eq!(ReturnCode::FAIL.to_register() as isize, -1);
    assert_eq!(ReturnCode::EINVAL.to_register() as isize, -6);
    assert_eq!(ReturnCode::ENOSUPPORT.to_register() as isize, -10);
    assert_eq!(ReturnCode::ENODEVICE.to_register() as isize, -11);
}

#[test]
fn loader_partial_failure() {
    let imgs = vec![
        image(IMAGE_MAGIC, 32, 512, 16),
        image(0xDEAD_BEEF, 32, 512, 16),
        image(IMAGE_MAGIC, 48, 256, 20),
    ];
    let (kernel, _caps, r) = kernel_with(4, &imgs, 0x4000);
    assert_eq!(r.len(), 3);
    assert!(r[0].is_ok());
    assert_eq!(r[1], Err(LoadError::InvalidHeader));
    assert!(r[2].is_ok());
    let occupied = (0..kernel.num_slots()).filter(|&i| kernel.process(i).is_some()).count();
    assert_eq!(occupied, 2);
    let p0 = kernel.process(r[0].unwrap().index).unwrap();
    assert_eq!(p0.flash_start, FLASH_BASE);
    assert_eq!(p0.entry_point, FLASH_BASE + 16);
    assert_eq!(p0.mem_start, MEM_BASE);
    assert_eq!(p0.mem_size, 512 + KERNEL_MEMORY);
    assert_eq!(p0.state, State::Unstarted);
    let p2 = kernel.process(r[2].unwrap().index).unwrap();
    assert_eq!(p2.flash_start, FLASH_BASE + 64);
    assert_eq!(p2.entry_point, FLASH_BASE + 64 + 20);
    assert_eq!(p2.mem_start, MEM_BASE + 512 + KERNEL_MEMORY);
}

#[test]
fn loader_reports_memory_and_slot_shortage() {
    let imgs = vec![
        image(IMAGE_MAGIC, 32, 512, 16),
        image(IMAGE_MAGIC, 32, 0x10000, 16),
        image(IMAGE_MAGIC, 32, 128, 16),
        image(IMAGE_MAGIC, 32, 128, 16),
    ];
    let (kernel, _caps, r) = kernel_with(2, &imgs, 0x4000);
    assert_eq!(r.len(), 4);
    assert!(r[0].is_ok());
    assert_eq!(r[1], Err(LoadError::NotEnoughMemory));
    assert!(r[2].is_ok());
    assert_eq!(r[3], Err(LoadError::NoProcessSlots));
    assert!(kernel.process(0).is_some() && kernel.process(1).is_some());
}

#[test]
fn loader_reports_truncated_image() {
    let mut flash = image(IMAGE_MAGIC, 32, 128, 16);
    flash.extend_from_slice(&image(IMAGE_MAGIC, 64, 128, 16)[..40]);
    let mut kernel = Kernel::new(4, 4);
    let caps = kernel.take_capabilities().unwrap();
    let r = load_processes(&mut kernel, &caps.process_management, &flash, FLASH_BASE, MEM_BASE, 0x4000);
    assert_eq!(r.len(), 2);
    assert!(r[0].is_ok());
    assert_eq!(r[1], Err(LoadError::NotEnoughFlash));
}

#[test]
fn loader_stops_at_erased_flash() {
    let mut flash = image(IMAGE_MAGIC, 32, 128, 16);
    flash.extend_from_slice(&[0u8; HEADER_LEN * 2]);
    let mut kernel = Kernel::new(4, 4);
    let caps = kernel.take_capabilities().unwrap();
    let r = load_processes(&mut kernel, &caps.process_management, &flash, FLASH_BASE, MEM_BASE, 0x4000);
    assert_eq!(r.len(), 1);
}

#[test]
fn callback_schedule_queues_upcall() {
    let (mut kernel, _caps, r) = kernel_with(2, &[image(IMAGE_MAGIC, 32, 128, 16)], 0x4000);
    let a = r[0].unwrap();
    let id = CallbackId { driver_num: 7, subscribe_num: 1 };
    let mut cb = Callback::new(a, id, 0x55, 0x8000);
    assert!(cb.schedule(&mut kernel, 1, 2, 3));
    let t = kernel.dequeue_task(a.index).unwrap();
    assert_eq!(
        t,
        Task::FunctionCall(FunctionCall {
            source: FunctionCallSource::Driver(id),
            argument0: 1,
            argument1: 2,
            argument2: 3,
            argument3: 0x55,
            pc: 0x8000,
        })
    );
}

#[test]
fn callback_schedule_fails_when_queue_full_or_process_gone() {
    let (mut kernel, _caps, r) = kernel_with(2, &[image(IMAGE_MAGIC, 32, 128, 16)], 0x4000);
    let a = r[0].unwrap();
    let mut cb = Callback::new(a, CallbackId { driver_num: 7, subscribe_num: 0 }, 0, 0x8000);
    for _ in 0..4 {
        assert!(cb.schedule(&mut kernel, 0, 0, 0));
    }
    assert!(!cb.schedule(&mut kernel, 0, 0, 0));
    assert_eq!(kernel.process(a.index).unwrap().tasks.dropped(), 1);
    let stale = AppId { index: a.index, identifier: a.identifier + 1 };
    let mut gone = Callback::new(stale, CallbackId { driver_num: 7, subscribe_num: 0 }, 0, 0x8000);
    assert!(!gone.schedule(&mut kernel, 0, 0, 0));
}

#[test]
fn grant_round_trip() {
    let (mut kernel, caps, r) = kernel_with(2, &[image(IMAGE_MAGIC, 32, 128, 16)], 0x4000);
    let a = r[0].unwrap();
    let mut g: Grant<(u32, bool)> = kernel.create_grant(&caps.memory_allocation, 16);
    assert_eq!(g.enter(&mut kernel, a, (0, false)), Ok((0, false)));
    let brk = kernel.process(a.index).unwrap().kernel_break;
    assert_eq!(brk, MEM_BASE + 128 + KERNEL_MEMORY - 16);
    assert_eq!(g.update(&mut kernel, a, (77, true)), Ok(()));
    assert_eq!(g.enter(&mut kernel, a, (0, false)), Ok((77, true)));
    assert_eq!(kernel.process(a.index).unwrap().kernel_break, brk);
    assert_eq!(g.users(&kernel), vec![a]);
}

#[test]
fn grant_errors() {
    let (mut kernel, caps, r) = kernel_with(2, &[image(IMAGE_MAGIC, 32, 128, 16)], 0x4000);
    let a = r[0].unwrap();
    let mut big: Grant<u8> = kernel.create_grant(&caps.memory_allocation, KERNEL_MEMORY + 1);
    assert_eq!(big.enter(&mut kernel, a, 0), Err(GrantError::OutOfMemory));
    assert_eq!(GrantError::OutOfMemory.into_return_code(), ReturnCode::ENOMEM);
    let mut g: Grant<u8> = kernel.create_grant(&caps.memory_allocation, 8);
    let missing = AppId { index: 1, identifier: 0 };
    assert_eq!(g.enter(&mut kernel, missing, 0), Err(GrantError::NoSuchApp));
    assert_eq!(GrantError::NoSuchApp.into_return_code(), ReturnCode::EINVAL);
}

#[test]
fn grant_state_is_forgotten_on_restart() {
    let (mut kernel, caps, r) = kernel_with(2, &[image(IMAGE_MAGIC, 32, 128, 16)], 0x4000);
    let a = r[0].unwrap();
    let mut g: Grant<u32> = kernel.create_grant(&caps.memory_allocation, 8);
    assert_eq!(g.update(&mut kernel, a, 9), Ok(()));
    let policy = ThresholdRestartThenPanic::new(1);
    assert_eq!(kernel.handle_fault(a.index, &policy), Some(FaultAction::Restart));
    assert_eq!(g.enter(&mut kernel, a, 1), Ok(1));
}

#[test]
fn isolation_between_processes() {
    let imgs = vec![image(IMAGE_MAGIC, 32, 128, 16), image(IMAGE_MAGIC, 32, 128, 16)];
    let (mut kernel, caps, r) = kernel_with(2, &imgs, 0x4000);
    let (p, q) = (r[0].unwrap(), r[1].unwrap());
    let mut g: Grant<u32> = kernel.create_grant(&caps.memory_allocation, 4);
    assert_eq!(g.update(&mut kernel, q, 0x5E11_7E1), Ok(()));
    let q_block = kernel.process(q.index).unwrap().kernel_break;
    let pp = kernel.process(p.index).unwrap();
    assert!(q_block >= pp.mem_start + pp.mem_size);
    assert!(!pp.accessible(q_block, 4));
    let mut platform = Recorder::default();
    let rc = handle_syscall(
        &mut kernel,
        &mut platform,
        p.index,
        Syscall::Allow { driver_number: 1, subdriver_number: 0, allow_address: q_block, allow_size: 4 },
    );
    assert_eq!(rc, Some(ReturnCode::EINVAL));
    assert_eq!(platform.allows, 0);
    assert_eq!(g.enter(&mut kernel, q, 0), Ok(0x5E11_7E1));
    assert_eq!(g.enter(&mut kernel, p, 3), Ok(3));
}

#[derive(Default)]
struct Recorder {
    commands: usize,
    subscribes: Vec<Option<Callback>>,
    allows: usize,
    last_slice: Option<AppSlice>,
}

impl Platform for Recorder {
    fn command(&mut self, _kernel: &mut Kernel, driver_num: usize, command_num: usize, arg0: usize, _arg1: usize, _app_id: AppId) -> Option<ReturnCode> {
        if driver_num != 1 {
            return None;
        }
        self.commands += 1;
        Some(if command_num == 0 { ReturnCode::SUCCESS } else { ReturnCode::SuccessWithValue { value: arg0 } })
    }

    fn subscribe(&mut self, _kernel: &mut Kernel, driver_num: usize, _subscribe_num: usize, callback: Option<Callback>, _app_id: AppId) -> Option<ReturnCode> {
        if driver_num != 1 {
            return None;
        }
        self.subscribes.push(callback);
        Some(ReturnCode::SUCCESS)
    }

    fn allow(&mut self, _kernel: &mut Kernel, driver_num: usize, _allow_num: usize, slice: Option<AppSlice>, _app_id: AppId) -> Option<ReturnCode> {
        if driver_num != 1 {
            return None;
        }
        self.allows += 1;
        self.last_slice = slice;
        Some(ReturnCode::SUCCESS)
    }
}

#[test]
fn dispatcher_bounds_check() {
    let (mut kernel, _caps, r) = kernel_with(2, &[image(IMAGE_MAGIC, 32, 128, 16)], 0x4000);
    let a = r[0].unwrap();
    let mut platform = Recorder::default();
    let rc = handle_syscall(
        &mut kernel,
        &mut platform,
        a.index,
        Syscall::Allow { driver_number: 1, subdriver_number: 0, allow_address: MEM_BASE + 120, allow_size: 16 },
    );
    assert_eq!(rc, Some(ReturnCode::EINVAL));
    assert_eq!(platform.allows, 0);
    assert_eq!(kernel.process(a.index).unwrap().context.r0, ReturnCode::EINVAL.to_register());
    let rc = handle_syscall(
        &mut kernel,
        &mut platform,
        a.index,
        Syscall::Allow { driver_number: 1, subdriver_number: 0, allow_address: MEM_BASE + 112, allow_size: 16 },
    );
    assert_eq!(rc, Some(ReturnCode::SUCCESS));
    assert_eq!(platform.allows, 1);
    assert_eq!(platform.last_slice, Some(AppSlice { app_id: a, ptr: MEM_BASE + 112, len: 16 }));
}

#[test]
fn dispatcher_routes_and_reports_missing_drivers() {
    let (mut kernel, _caps, r) = kernel_with(2, &[image(IMAGE_MAGIC, 32, 128, 16)], 0x4000);
    let a = r[0].unwrap();
    let mut platform = Recorder::default();
    let cmd = Syscall::Command { driver_number: 1, subdriver_number: 1, arg0: 33, arg1: 0 };
    assert_eq!(handle_syscall(&mut kernel, &mut platform, a.index, cmd), Some(ReturnCode::SuccessWithValue { value: 33 }));
    assert_eq!(kernel.process(a.index).unwrap().context.r0, 33);
    let none = Syscall::Command { driver_number: 9, subdriver_number: 0, arg0: 0, arg1: 0 };
    assert_eq!(handle_syscall(&mut kernel, &mut platform, a.index, none), Some(ReturnCode::ENODEVICE));
    let sub = Syscall::Subscribe { driver_number: 1, subdriver_number: 2, callback_ptr: 0x9000, appdata: 5 };
    assert_eq!(handle_syscall(&mut kernel, &mut platform, a.index, sub), Some(ReturnCode::SUCCESS));
    let unsub = Syscall::Subscribe { driver_number: 1, subdriver_number: 2, callback_ptr: 0, appdata: 0 };
    assert_eq!(handle_syscall(&mut kernel, &mut platform, a.index, unsub), Some(ReturnCode::SUCCESS));
    assert_eq!(
        platform.subscribes,
        vec![Some(Callback::new(a, CallbackId { driver_num: 1, subscribe_num: 2 }, 5, 0x9000)), None]
    );
    assert_eq!(handle_trap(&mut kernel, &mut platform, a.index, 9, 0, 0, 0, 0), Some(ReturnCode::ENOSUPPORT));
    assert_eq!(kernel.process(a.index).unwrap().context.r0, ReturnCode::ENOSUPPORT.to_register());
    assert_eq!(handle_syscall(&mut kernel, &mut platform, a.index, Syscall::Yield), None);
    assert_eq!(kernel.state(a.index), Some(State::Yielded));
    assert_eq!(handle_syscall(&mut kernel, &mut platform, 1, Syscall::Yield), None);
}

#[test]
fn decode_syscall_classes() {
    assert_eq!(decode_syscall(0, 1, 2, 3, 4), Some(Syscall::Yield));
    assert_eq!(
        decode_syscall(2, 1, 2, 3, 4),
        Some(Syscall::Command { driver_number: 1, subdriver_number: 2, arg0: 3, arg1: 4 })
    );
    assert_eq!(
        decode_syscall(3, 1, 2, 3, 4),
        Some(Syscall::Allow { driver_number: 1, subdriver_number: 2, allow_address: 3, allow_size: 4 })
    );
    assert_eq!(decode_syscall(7, 1, 2, 3, 4), None);
}

#[test]
fn fault_policy_threshold() {
    let (mut kernel, _caps, r) = kernel_with(2, &[image(IMAGE_MAGIC, 32, 128, 16)], 0x4000);
    let a = r[0].unwrap();
    let policy = ThresholdRestartThenPanic::new(4);
    let mut sched = RoundRobinScheduler::new(&kernel);
    for n in 1..=4 {
        assert_eq!(kernel.handle_fault(a.index, &policy), Some(FaultAction::Restart));
        let p = kernel.process(a.index).unwrap();
        assert_eq!(p.state, State::Unstarted);
        assert_eq!(p.restart_count, n);
        assert_eq!(p.context, Context { pc: FLASH_BASE + 16, r0: 0, r1: 0, r2: 0, r3: 0 });
    }
    assert_eq!(kernel.handle_fault(a.index, &policy), Some(FaultAction::Panic));
    assert_eq!(kernel.state(a.index), Some(State::Panicked));
    assert_eq!(kernel.handle_fault(a.index, &policy), None);
    assert_eq!(sched.next(&kernel), None);
}

#[test]
fn scheduler_round_robin() {
    let imgs = vec![
        image(IMAGE_MAGIC, 32, 128, 16),
        image(IMAGE_MAGIC, 32, 128, 16),
        image(IMAGE_MAGIC, 32, 128, 16),
    ];
    let (mut kernel, _caps, _r) = kernel_with(4, &imgs, 0x4000);
    let mut sched = RoundRobinScheduler::new(&kernel);
    let mut picks = Vec::new();
    for _ in 0..6 {
        let i = sched.next(&kernel).unwrap();
        kernel.set_yielded(i);
        picks.push(i);
    }
    assert_eq!(picks, vec![0, 1, 2, 0, 1, 2]);
    let policy = ThresholdRestartThenPanic::new(0);
    assert_eq!(kernel.handle_fault(1, &policy), Some(FaultAction::Panic));
    let next: Vec<usize> = (0..4).map(|_| sched.next(&kernel).unwrap()).collect();
    assert_eq!(next, vec![0, 2, 0, 2]);
}

#[test]
fn yield_then_deliver_task() {
    let (mut kernel, _caps, r) = kernel_with(2, &[image(IMAGE_MAGIC, 32, 128, 16)], 0x4000);
    let a = r[0].unwrap();
    kernel.set_yielded(a.index);
    assert_eq!(kernel.deliver_task(a.index), None);
    assert!(kernel.enqueue_task(a, task(3)));
    assert_eq!(kernel.deliver_task(a.index), Some(task(3)));
    let p = kernel.process(a.index).unwrap();
    assert_eq!(p.state, State::Running);
    assert_eq!(p.context, Context { pc: 0x103, r0: 3, r1: 0, r2: 0, r3: 0 });
}

#[test]
fn terminated_process_is_unreachable() {
    let (mut kernel, caps, r) = kernel_with(2, &[image(IMAGE_MAGIC, 32, 128, 16)], 0x4000);
    let a = r[0].unwrap();
    let mut g: Grant<u8> = kernel.create_grant(&caps.memory_allocation, 8);
    assert_eq!(g.update(&mut kernel, a, 4), Ok(()));
    let mut cb = Callback::new(a, CallbackId { driver_num: 3, subscribe_num: 0 }, 0, 0x8000);
    kernel.terminate(&caps.process_management, a.index);
    assert!(kernel.process(a.index).is_none());
    assert!(!kernel.is_live(a));
    assert!(!cb.schedule(&mut kernel, 0, 0, 0));
    assert_eq!(g.enter(&mut kernel, a, 0), Err(GrantError::NoSuchApp));
    assert!(g.users(&kernel).is_empty());
}

#[test]
fn plan_and_complete_calls() {
    let (kernel, _caps, r) = kernel_with(2, &[image(IMAGE_MAGIC, 32, 128, 16)], 0x4000);
    let a = r[0].unwrap();
    let p = kernel.process(a.index).unwrap();
    assert_eq!(plan_syscall(p, Syscall::Yield), Dispatch::Yield);
    assert_eq!(
        plan_syscall(p, Syscall::Subscribe { driver_number: 4, subdriver_number: 1, callback_ptr: 0x900, appdata: 3 }),
        Dispatch::Call(DriverCall::Subscribe {
            driver_num: 4,
            subscribe_num: 1,
            callback: Some(Callback::new(a, CallbackId { driver_num: 4, subscribe_num: 1 }, 3, 0x900)),
        })
    );
    assert_eq!(
        plan_syscall(p, Syscall::Allow { driver_number: 4, subdriver_number: 0, allow_address: 0, allow_size: 9 }),
        Dispatch::Refuse(ReturnCode::EINVAL)
    );
    assert_eq!(
        plan_syscall(p, Syscall::Allow { driver_number: 4, subdriver_number: 0, allow_address: MEM_BASE, allow_size: 9 }),
        Dispatch::Call(DriverCall::Allow {
            driver_num: 4,
            allow_num: 0,
            slice: Some(AppSlice { app_id: a, ptr: MEM_BASE, len: 9 }),
        })
    );
    assert_eq!(
        plan_syscall(p, Syscall::Allow { driver_number: 4, subdriver_number: 0, allow_address: MEM_BASE + 129, allow_size: 0 }),
        Dispatch::Refuse(ReturnCode::EINVAL)
    );
    assert_eq!(
        plan_syscall(p, Syscall::Allow { driver_number: 4, subdriver_number: 0, allow_address: usize::MAX, allow_size: 2 }),
        Dispatch::Refuse(ReturnCode::EINVAL)
    );
    assert_eq!(complete_call(None), ReturnCode::ENODEVICE);
    assert_eq!(complete_call(Some(ReturnCode::EBUSY)), ReturnCode::EBUSY);
}
