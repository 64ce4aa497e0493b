use tock_kernel::board::{QdecPins, QdecTest, SpiMX25R6435FPins, SpiPins, UartPins, QDEC as BoardQdec};
use tock_kernel::hil::{ClockPhase, ClockPolarity, FloatingState, InterruptEdge};
use tock_kernel::loader::IMAGE_MAGIC;
use tock_kernel::msp432_timer::{TimerA, TimerAFrequency, TimerMode, TimerRegisters, MC_CONTINUOUS, MC_STOP};
use tock_kernel::nrf52_qdec::Qdec;
use tock_kernel::nrf5x_qdec::{CompareClient, QDEC};
use tock_kernel::qdec::{App, QdecInterface};
use tock_kernel::remote::RemoteSystemCall;
use tock_kernel::{
    load_processes, Alarm, AppId, Callback, CallbackId, Driver, InterruptPin, Kernel, ProcessManagementCapability,
    QdecClient, QdecDriver, ReturnCode, SpiMasterDevice, State,
};

fn one_process() -> (Kernel, tock_kernel::Capabilities, AppId) {
    let mut kernel = Kernel::new(2, 4);
    let caps = kernel.take_capabilities().unwrap();
    let mut flash = Vec::new();
    for w in [IMAGE_MAGIC, 32, 128, 16] {
        flash.extend_from_slice(&w.to_le_bytes());
    }
    flash.resize(32, 0);
    let r = load_processes(&mut kernel, &caps.process_management, &flash, 0x4_0000, 0x2000_0000, 0x4000);
    let a = r[0].unwrap();
    (kernel, caps, a)
}

#[test]
fn qdec_capsule_commands() {
    let (mut kernel, caps, a) = one_process();
    let mut chip = Qdec::new();
    chip.registers.acc = 17;
    let grant = kernel.create_grant::<App>(&caps.memory_allocation, 16);
    let mut cap = QdecInterface::new(chip, grant);
    assert_eq!(cap.command(&mut kernel, 0, 0, 0, a), ReturnCode::SUCCESS);
    assert_eq!(cap.command(&mut kernel, 2, 0, 0, a), ReturnCode::FAIL);
    assert_eq!(cap.command(&mut kernel, 1, 0, 0, a), ReturnCode::SUCCESS);
    assert_eq!(cap.command(&mut kernel, 2, 0, 0, a), ReturnCode::SUCCESS);
    assert_eq!(cap.command(&mut kernel, 3, 0, 0, a), ReturnCode::SUCCESS);
    assert_eq!(cap.command(&mut kernel, 4, 0, 0, a), ReturnCode::SuccessWithValue { value: 17 });
    assert_eq!(cap.command(&mut kernel, 4, 0, 0, a), ReturnCode::SuccessWithValue { value: 0 });
    assert_eq!(cap.command(&mut kernel, 5, 0, 0, a), ReturnCode::ENOSUPPORT);
}

#[test]
fn qdec_capsule_subscribe() {
    let (mut kernel, caps, a) = one_process();
    let grant = kernel.create_grant::<App>(&caps.memory_allocation, 16);
    let mut cap = QdecInterface::new(Qdec::new(), grant);
    let cb = Callback::new(a, CallbackId { driver_num: 0x90005, subscribe_num: 0 }, 1, 0x9000);
    assert_eq!(cap.subscribe(&mut kernel, 0, Some(cb), a), ReturnCode::SUCCESS);
    assert_eq!(cap.apps.enter(&mut kernel, a, App::empty()), Ok(App { callback: Some(cb), subscribed: false }));
    assert_eq!(cap.subscribe(&mut kernel, 1, Some(cb), a), ReturnCode::ENOSUPPORT);
    let gone = AppId { index: 1, identifier: 5 };
    assert_eq!(cap.subscribe(&mut kernel, 0, None, gone), ReturnCode::EINVAL);
    assert_eq!(cap.allow(&mut kernel, a, 0, None), ReturnCode::ENOSUPPORT);
}

#[test]
fn qdec_capsule_sample_ready_notifies_subscribed() {
    let (mut kernel, caps, a) = one_process();
    let grant = kernel.create_grant::<App>(&caps.memory_allocation, 16);
    let mut chip = Qdec::new();
    chip.registers.acc = 5;
    let mut cap = QdecInterface::new(chip, grant);
    let cb = Callback::new(a, CallbackId { driver_num: 0x90005, subscribe_num: 0 }, 1, 0x9000);
    assert_eq!(cap.apps.update(&mut kernel, a, App { callback: Some(cb), subscribed: true }), Ok(()));
    cap.sample_ready(&mut kernel);
    assert_eq!(kernel.process(a.index).unwrap().tasks.len(), 1);
    assert_eq!(cap.apps.enter(&mut kernel, a, App::empty()), Ok(App { callback: Some(cb), subscribed: false }));
    cap.sample_ready(&mut kernel);
    assert_eq!(kernel.process(a.index).unwrap().tasks.len(), 1);
    cap.overflow(&mut kernel);
}

#[derive(Default)]
struct FakeSpi {
    configured: Option<(ClockPolarity, ClockPhase, u32)>,
    sent: Vec<Vec<u8>>,
}

impl SpiMasterDevice for FakeSpi {
    fn configure(&mut self, cpol: ClockPolarity, cpal: ClockPhase, rate: u32) {
        self.configured = Some((cpol, cpal, rate));
    }

    fn read_write_bytes(&mut self, write: Vec<u8>, _read: Option<Vec<u8>>, len: usize) -> ReturnCode {
        assert_eq!(write.len(), len);
        self.sent.push(write);
        ReturnCode::SUCCESS
    }
}

#[derive(Default)]
struct FakePin {
    steps: Vec<&'static str>,
    floating: Option<FloatingState>,
    edge: Option<InterruptEdge>,
}

impl InterruptPin for FakePin {
    fn make_input(&mut self) {
        self.steps.push("input");
    }

    fn clear(&mut self) {
        self.steps.push("clear");
    }

    fn set_floating_state(&mut self, state: FloatingState) {
        self.floating = Some(state);
    }

    fn enable_interrupts(&mut self, edge: InterruptEdge) {
        self.edge = Some(edge);
    }
}

fn remote(kernel: &mut Kernel) -> RemoteSystemCall<FakeSpi, FakePin> {
    let caps = kernel.take_capabilities();
    let pm: ProcessManagementCapability = match caps {
        Some(c) => c.process_management,
        None => panic!("capabilities already taken"),
    };
    RemoteSystemCall::new(vec![0; 21], vec![0; 8], vec![0; 5], false, FakeSpi::default(), FakePin::default(), pm)
}

#[test]
fn remote_route_and_configure() {
    let mut kernel = Kernel::new(1, 1);
    let mut r = remote(&mut kernel);
    assert_eq!(r.determine_route(2), 1);
    assert_eq!(r.determine_route(0x40001), 1);
    assert_eq!(r.determine_route(3), 0);
    r.configure();
    assert_eq!(r.spi.configured, Some((ClockPolarity::IdleLow, ClockPhase::SampleLeading, 400_000)));
    assert_eq!(r.pin.steps, vec!["input", "clear"]);
    assert_eq!(r.pin.floating, Some(FloatingState::PullNone));
    assert_eq!(r.pin.edge, Some(InterruptEdge::RisingEdge));
    assert!(!r.get_client());
    r.enqueue_process("blink");
}

#[test]
fn remote_fill_and_send() {
    let mut kernel = Kernel::new(1, 1);
    let mut r = remote(&mut kernel);
    r.fill_buffer(2, 0x40001, 0x0102_0304, 5, 6);
    assert_eq!(r.data_buffer.as_ref().unwrap(), &vec![2, 0x40001, 0x0102_0304, 5, 6]);
    let expected: Vec<u8> = vec![0, 0, 0, 2, 0, 4, 0, 1, 1, 2, 3, 4, 0, 0, 0, 5, 0, 0, 0, 6, 0];
    assert_eq!(r.pass_buffer.as_ref().unwrap(), &expected);
    assert_eq!(r.send_data(), ReturnCode::SUCCESS);
    let mut sealed = expected.clone();
    let mut checksum: u8 = 1;
    for b in &expected {
        checksum ^= b;
    }
    sealed[20] = checksum;
    assert_eq!(checksum, 1 ^ 2 ^ 4 ^ 1 ^ 1 ^ 2 ^ 3 ^ 4 ^ 5 ^ 6);
    assert_eq!(r.spi.sent, vec![sealed.clone()]);
    assert!(r.pass_buffer.is_none() && r.read_buffer.is_none());
    r.read_write_done(sealed.clone(), Some(vec![0, 0, 1, 2, 0, 0, 0, 0]), 21);
    assert_eq!(r.client, Some(true));
    assert_eq!(r.read_buffer, Some(vec![0, 0, 1, 2, 0, 0, 0, 0]));
}

#[test]
fn remote_answer_resumes_waiting_processes() {
    let (mut kernel, caps, a) = one_process();
    drop(caps);
    let mut second = Kernel::new(1, 1);
    let pm = second.take_capabilities().unwrap().process_management;
    let mut r = RemoteSystemCall::new(vec![0; 21], vec![0, 0, 1, 2], vec![0; 5], false, FakeSpi::default(), FakePin::default(), pm);
    kernel.set_waiting_on_remote(a.index);
    r.fired(&mut kernel);
    let p = kernel.process(a.index).unwrap();
    assert_eq!(p.state, State::Running);
    assert_eq!(p.context.r0, 0x0102);
}

#[test]
fn nrf52_qdec_interrupt_reports_samples() {
    let mut q = Qdec::new();
    q.registers.acc = 9;
    q.registers.events[0] = true;
    assert_eq!(q.handle_interrupt(), Vec::<u32>::new());
    assert_eq!(q.registers.acc, 9);
    q.set_client(1);
    q.registers.events[4] = true;
    assert_eq!(q.handle_interrupt(), vec![9, 0]);
    assert_eq!(q.registers.events, [false, false, false, false, true]);
    assert!(q.registers.inten[0] && q.registers.inten[4]);
    q.registers.acc = 4;
    assert_eq!(q.handle_interrupt(), vec![4]);
}

#[test]
fn nrf52_qdec_pins_and_enable() {
    let mut q = Qdec::new();
    q.set_pins(3, 36);
    assert_eq!((q.registers.psel_a, q.registers.psel_b), (3, 4));
    assert_eq!(q.is_enabled(), ReturnCode::FAIL);
    assert_eq!(QdecDriver::enable_qdec(&mut q), ReturnCode::SUCCESS);
    assert_eq!(q.enabled(), ReturnCode::SUCCESS);
    assert!(q.registers.started);
    assert_eq!(q.registers.sample_per, 5);
    q.disable_interrupts();
    assert!(!q.registers.inten[0]);
    assert_eq!(QdecDriver::enable_interrupts(&mut q), ReturnCode::SUCCESS);
    assert!(q.registers.inten[0]);
}

struct Seen(Vec<u32>);

impl CompareClient for Seen {
    fn compare(&mut self, val: u32) {
        self.0.push(val);
    }
}

#[test]
fn nrf5x_qdec_interrupt_mask() {
    let mut q = QDEC::new(3);
    q.registers.events = [true, false, true, true, true];
    q.registers.inten = [true, true, true, true, true];
    assert_eq!(q.handle_interrupt(), None);
    q.set_client(0);
    let val = q.handle_interrupt().unwrap();
    let mut seen = Seen(Vec::new());
    seen.compare(val);
    assert_eq!(seen.0, vec![0b1101]);
    assert_eq!(q.registers.events, [false, false, false, false, true]);
    assert_eq!(q.registers.inten, [false, true, false, false, true]);
    assert_eq!(q.enable(), ReturnCode::SUCCESS);
    assert!(q.is_enabled());
    q.enable_interrupts();
    assert!(q.interrupts_enable());
    q.disable_interrupts();
    assert!(!q.interrupts_enable());
    q.registers.acc = 12;
    assert_eq!(q.get_ticks(), Ok(12));
}

fn timer_regs() -> TimerRegisters {
    TimerRegisters {
        clock_source: 0,
        input_divider: 0,
        mode_control: 0,
        interrupt_enable: true,
        interrupt_flag: true,
        input_divider_expansion: 0,
        cc0_interrupt_enable: false,
        cc0_interrupt_flag: false,
        counter: 100,
        compare0: 0,
    }
}

#[test]
fn timer_alarm_cycle() {
    assert_eq!(TimerAFrequency::frequency(), 2048);
    let mut t = TimerA::new(timer_regs());
    assert!(!t.handle_interrupt());
    t.set_client();
    t.set_alarm(0x1_0203);
    assert_eq!(t.mode, TimerMode::Alarm);
    assert_eq!(t.registers.mode_control, MC_CONTINUOUS);
    assert!(!t.registers.interrupt_enable && !t.registers.interrupt_flag);
    assert_eq!(t.get_alarm(), 0x0203);
    assert!(t.is_enabled());
    t.registers.cc0_interrupt_flag = true;
    assert!(t.handle_interrupt());
    assert!(!t.registers.cc0_interrupt_flag && !t.registers.cc0_interrupt_enable);
    assert!(!t.is_enabled());
    assert_eq!(t.now(), 100);
    assert_eq!(t.max_tics(), 65535);
    t.disable();
    assert_eq!(t.mode, TimerMode::Disabled);
    assert_eq!(t.registers.mode_control, MC_STOP);
    t.registers.cc0_interrupt_flag = true;
    assert!(!t.handle_interrupt());
}

#[test]
fn board_pins_and_qdec_test() {
    let s = SpiMX25R6435FPins::new(17, 22, 23);
    assert_eq!((s.chip_select, s.write_protect_pin, s.hold_pin), (17, 22, 23));
    let p = SpiPins::new(1, 2, 3);
    assert_eq!((p.mosi, p.miso, p.clk), (1, 2, 3));
    let u = UartPins::new(5, 6, 7, 8);
    assert_eq!((u.rts, u.txd, u.cts, u.rxd), (5, 6, 7, 8));
    let q = QdecPins::new(9, 10);
    assert_eq!((q.pin_a, q.pin_b), (9, 10));
    let b = BoardQdec::new(Qdec::new(), vec![0, 1]);
    assert_eq!(b.channels, vec![0, 1]);
    assert!(b.callback.is_none());

    let mut chip = Qdec::new();
    chip.registers.acc = 3;
    let mut t = QdecTest::new(TimerA::new(timer_regs()), chip);
    t.start();
    assert!(t.qdec.registers.enable && t.qdec.registers.inten[0]);
    assert_eq!(t.alarm.get_alarm(), 100 + 2048);
    assert_eq!(t.fired(), 3);
    assert_eq!(t.qdec.registers.acc, 0);
}

#[test]
fn remote_syscall_forwards_remote_commands() {
    let (mut kernel, _caps, a) = one_process();
    let mut second = Kernel::new(1, 1);
    let pm = second.take_capabilities().unwrap().process_management;
    let mut r = RemoteSystemCall::new(vec![0; 21], vec![0; 4], vec![0; 5], false, FakeSpi::default(), FakePin::default(), pm);
    let local = tock_kernel::Syscall::Command { driver_number: 3, subdriver_number: 1, arg0: 0, arg1: 0 };
    assert!(!r.remote_syscall(&mut kernel, a.index, local));
    assert!(r.spi.sent.is_empty());
    assert_eq!(kernel.state(a.index), Some(State::Unstarted));
    let led = tock_kernel::Syscall::Command { driver_number: 2, subdriver_number: 1, arg0: 7, arg1: 0 };
    assert!(r.remote_syscall(&mut kernel, a.index, led));
    assert_eq!(r.data_buffer, Some(vec![2, 2, 1, 7, 0]));
    assert_eq!(r.spi.sent.len(), 1);
    assert_eq!(&r.spi.sent[0][..20], &[0, 0, 0, 2, 0, 0, 0, 2, 0, 0, 0, 1, 0, 0, 0, 7, 0, 0, 0, 0]);
    assert_eq!(r.spi.sent[0][20], 1 ^ 2 ^ 2 ^ 1 ^ 7);
    assert_eq!(kernel.state(a.index), Some(State::WaitingOnRemote));
    r.read_write_done(vec![0; 21], Some(vec![0, 0, 0, 9]), 21);
    r.client = Some(false);
    r.fired(&mut kernel);
    assert_eq!(kernel.state(a.index), Some(State::Running));
    assert_eq!(kernel.process(a.index).unwrap().context.r0, 9);
}

#[test]
fn initialize_all_registers_client() {
    let t = tock_kernel::board::initialize_all(TimerA::new(timer_regs()), Qdec::new(), 4);
    assert_eq!(t.qdec.client, Some(4));
    assert!(!t.qdec.registers.enable);
}

#[test]
fn sample_ready_leaves_unsubscribed_state_alone() {
    let (mut kernel, caps, a) = one_process();
    let grant = kernel.create_grant::<App>(&caps.memory_allocation, 16);
    let mut chip = Qdec::new();
    chip.registers.acc = 5;
    let mut cap = QdecInterface::new(chip, grant);
    let cb = Callback::new(a, CallbackId { driver_num: 0x90005, subscribe_num: 0 }, 1, 0x9000);
    assert_eq!(cap.subscribe(&mut kernel, 0, Some(cb), a), ReturnCode::SUCCESS);
    cap.sample_ready(&mut kernel);
    assert_eq!(kernel.process(a.index).unwrap().tasks.len(), 0);
    assert_eq!(cap.driver.registers.acc, 5);
    assert_eq!(cap.apps.get(&kernel, a), Some(App { callback: Some(cb), subscribed: false }));
}
