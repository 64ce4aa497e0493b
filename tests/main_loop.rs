use tock_kernel::board::{Platform as BoardPlatform, Route};
use tock_kernel::loader::IMAGE_MAGIC;
use tock_kernel::main_loop::{handle_switch, select_next, SwitchReason};
use tock_kernel::nrf52_qdec::Qdec;
use tock_kernel::qdec::{App, QdecInterface, DRIVER_NUM};
use tock_kernel::{
    load_processes, AppId, AppSlice, Callback, Capabilities, FunctionCall, FunctionCallSource, Kernel, Platform,
    ReturnCode, RoundRobinScheduler, State, Task, ThresholdRestartThenPanic,
};

fn loaded(n: usize) -> (Kernel, Capabilities, Vec<AppId>) {
    let mut kernel = Kernel::new(4, 4);
    let caps = kernel.take_capabilities().unwrap();
    let mut flash = Vec::new();
    for _ in 0..n {
        for w in [IMAGE_MAGIC, 32, 128, 16] {
            flash.extend_from_slice(&w.to_le_bytes());
        }
        flash.resize(flash.len() + 16, 0);
    }
    let r = load_processes(&mut kernel, &caps.process_management, &flash, 0x4_0000, 0x2000_0000, 0x8000);
    let ids = r.into_iter().map(|x| x.unwrap()).collect();
    (kernel, caps, ids)
}

#[derive(Default)]
struct NoDrivers {
    calls: usize,
}

impl Platform for NoDrivers {
    fn command(&mut self, _k: &mut Kernel, _d: usize, _c: usize, _a0: usize, _a1: usize, _a: AppId) -> Option<ReturnCode> {
        self.calls += 1;
        None
    }

    fn subscribe(&mut self, _k: &mut Kernel, _d: usize, _s: usize, _cb: Option<Callback>, _a: AppId) -> Option<ReturnCode> {
        self.calls += 1;
        None
    }

    fn allow(&mut self, _k: &mut Kernel, _d: usize, _n: usize, _s: Option<AppSlice>, _a: AppId) -> Option<ReturnCode> {
        self.calls += 1;
        None
    }
}

#[test]
fn yield_delivers_pending_upcall_at_once() {
    let (mut kernel, caps, ids) = loaded(1);
    let a = ids[0];
    let up = Task::FunctionCall(FunctionCall {
        source: FunctionCallSource::Kernel,
        argument0: 1,
        argument1: 2,
        argument2: 3,
        argument3: 4,
        pc: 0x700,
    });
    assert!(kernel.enqueue_task(a, up));
    let mut platform = NoDrivers::default();
    let policy = ThresholdRestartThenPanic::new(1);
    let yield_call = SwitchReason::SyscallFired { svc: 0, r0: 0, r1: 0, r2: 0, r3: 0 };
    assert_eq!(handle_switch(&mut kernel, &mut platform, &policy, a.index, yield_call, &caps.main_loop), None);
    let p = kernel.process(a.index).unwrap();
    assert_eq!(p.state, State::Running);
    assert_eq!(p.context.pc, 0x700);
    assert_eq!(p.tasks.len(), 0);
    assert_eq!(handle_switch(&mut kernel, &mut platform, &policy, a.index, yield_call, &caps.main_loop), None);
    assert_eq!(kernel.state(a.index), Some(State::Yielded));
    assert_eq!(platform.calls, 0);
}

#[test]
fn switch_reasons() {
    let (mut kernel, caps, ids) = loaded(1);
    let a = ids[0];
    let mut platform = NoDrivers::default();
    let policy = ThresholdRestartThenPanic::new(0);
    let cmd = SwitchReason::SyscallFired { svc: 2, r0: 5, r1: 0, r2: 0, r3: 0 };
    assert_eq!(handle_switch(&mut kernel, &mut platform, &policy, a.index, cmd, &caps.main_loop), Some(ReturnCode::ENODEVICE));
    let bad = SwitchReason::SyscallFired { svc: 200, r0: 0, r1: 0, r2: 0, r3: 0 };
    assert_eq!(handle_switch(&mut kernel, &mut platform, &policy, a.index, bad, &caps.main_loop), Some(ReturnCode::ENOSUPPORT));
    assert_eq!(handle_switch(&mut kernel, &mut platform, &policy, a.index, SwitchReason::TimesliceExpired, &caps.main_loop), None);
    assert_eq!(kernel.state(a.index), Some(State::Unstarted));
    assert_eq!(handle_switch(&mut kernel, &mut platform, &policy, a.index, SwitchReason::Fault, &caps.main_loop), None);
    assert_eq!(kernel.state(a.index), Some(State::Panicked));
}

#[test]
fn select_next_visits_each_process_once_per_round() {
    let (mut kernel, caps, _ids) = loaded(3);
    let mut sched = RoundRobinScheduler::new(&kernel);
    let mut platform = NoDrivers::default();
    let policy = ThresholdRestartThenPanic::new(1);
    let mut seen = Vec::new();
    for _ in 0..9 {
        let i = select_next(&mut kernel, &mut sched, &caps.main_loop).unwrap();
        seen.push(i);
        let yield_call = SwitchReason::SyscallFired { svc: 0, r0: 0, r1: 0, r2: 0, r3: 0 };
        handle_switch(&mut kernel, &mut platform, &policy, i, yield_call, &caps.main_loop);
    }
    assert_eq!(seen, vec![0, 1, 2, 0, 1, 2, 0, 1, 2]);
}

#[test]
fn board_platform_routes_qdec() {
    let (mut kernel, caps, ids) = loaded(1);
    let a = ids[0];
    let mut chip = Qdec::new();
    chip.registers.acc = 8;
    let qdec = QdecInterface::new(chip, kernel.create_grant::<App>(&caps.memory_allocation, 16));
    let mut board = BoardPlatform::new(qdec, NoDrivers::default());
    assert_eq!(board.route(DRIVER_NUM), Route::Qdec);
    assert_eq!(board.route(1), Route::Others);
    assert_eq!(board.command(&mut kernel, DRIVER_NUM, 4, 0, 0, a), Some(ReturnCode::SuccessWithValue { value: 8 }));
    assert_eq!(board.command(&mut kernel, 1, 0, 0, 0, a), None);
    assert_eq!(board.subscribe(&mut kernel, DRIVER_NUM, 3, None, a), Some(ReturnCode::ENOSUPPORT));
    assert_eq!(board.allow(&mut kernel, DRIVER_NUM, 0, None, a), Some(ReturnCode::ENOSUPPORT));
    assert_eq!(board.others.calls, 1);
}
