use vstd::prelude::*;
use crate::callback::Callback;
use crate::hil::{Alarm, QdecDriver};
use crate::kernel::Kernel;
use crate::nrf52_qdec::{Qdec, QdecRegisters, EVENT_SAMPLERDY, EVENT_STOPPED, SAMPLEPER_US4096};
use crate::process::AppId;
use crate::qdec::{App, QdecInterface, DRIVER_NUM as QDEC_DRIVER_NUM};
use crate::returncode::ReturnCode;
use crate::syscall::{AppSlice, Driver};

verus! {

/// A GPIO pin, by number.
pub type Pin = u32;

/// Pins of the MX25R6435F flash chip's SPI connection.
#[derive(Clone, Copy, Debug, PartialEq, Eq, Structural)]
pub struct SpiMX25R6435FPins {
    pub chip_select: Pin,
    pub write_protect_pin: Pin,
    pub hold_pin: Pin,
}

impl SpiMX25R6435FPins {
    pub fn new(chip_select: Pin, write_protect_pin: Pin, hold_pin: Pin) -> (r: Self)
        ensures
            r == (SpiMX25R6435FPins { chip_select, write_protect_pin, hold_pin }),
    {
        Self { chip_select, write_protect_pin, hold_pin }
    }
}

/// Pins of the SPI bus.
#[derive(Clone, Copy, Debug, PartialEq, Eq, Structural)]
pub struct SpiPins {
    pub mosi: Pin,
    pub miso: Pin,
    pub clk: Pin,
}

impl SpiPins {
    pub fn new(mosi: Pin, miso: Pin, clk: Pin) -> (r: Self)
        ensures
            r == (SpiPins { mosi, miso, clk }),
    {
        Self { mosi, miso, clk }
    }
}

/// Pins of the UART.
#[derive(Clone, Copy, Debug, PartialEq, Eq, Structural)]
pub struct UartPins {
    pub rts: Pin,
    pub txd: Pin,
    pub cts: Pin,
    pub rxd: Pin,
}

impl UartPins {
    pub fn new(rts: Pin, txd: Pin, cts: Pin, rxd: Pin) -> (r: Self)
        ensures
            r == (UartPins { rts, txd, cts, rxd }),
    {
        Self { rts, txd, cts, rxd }
    }
}

/// Pins of the quadrature decoder.
#[derive(Clone, Copy, Debug, PartialEq, Eq, Structural)]
pub struct QdecPins {
    pub pin_a: Pin,
    pub pin_b: Pin,
}

impl QdecPins {
    pub fn new(pin_a: Pin, pin_b: Pin) -> (r: Self)
        ensures
            r == (QdecPins { pin_a, pin_b }),
    {
        Self { pin_a, pin_b }
    }
}

/// A board's rotary encoder: a decoder and the channels it reads.
pub struct QDEC<Q: QdecDriver> {
    pub qdec: Q,
    pub channels: Vec<usize>,
    pub callback: Option<Callback>,
}

impl<Q: QdecDriver> QDEC<Q> {
    pub fn new(qdec: Q, channels: Vec<usize>) -> (r: QDEC<Q>)
        ensures
            r.qdec == qdec,
            r.channels == channels,
            r.callback.is_none(),
    {
        QDEC { qdec, channels, callback: None }
    }
}

/// Delay between two readings of the decoder, in milliseconds.
pub const TEST_DELAY_MS: u32 = 1000;

/// Reads the decoder periodically.
pub struct QdecTest<A: Alarm> {
    pub alarm: A,
    pub qdec: Qdec,
}

/// The decoder's registers once it has been turned on with both
/// interrupts: on, sampling, with the sample period set.
pub open spec fn started_registers(r: QdecRegisters) -> QdecRegisters {
    QdecRegisters {
        enable: true,
        started: true,
        sample_per: SAMPLEPER_US4096,
        inten: r.inten,
        ..r
    }
}

impl<A: Alarm> QdecTest<A> {
    pub fn new(alarm: A, qdec: Qdec) -> (r: QdecTest<A>)
        ensures
            r.alarm == alarm,
            r.qdec.registers == qdec.registers,
            r.qdec.client == qdec.client,
    {
        QdecTest { alarm, qdec }
    }

    /// Turns the decoder and its interrupts on, then arms the alarm for the
    /// first reading.
    pub fn start(&mut self)
        ensures
            final(self).qdec.registers == started_registers(final(self).qdec.registers),
            final(self).qdec.registers.acc == old(self).qdec.registers.acc,
            final(self).qdec.registers.inten@ == old(self).qdec.registers.inten@.update(
                EVENT_SAMPLERDY as int,
                true,
            ).update(EVENT_STOPPED as int, true),
            final(self).qdec.client == old(self).qdec.client,
    {
        let _ = Qdec::enable_qdec(&mut self.qdec);
        Qdec::enable_interrupts(&mut self.qdec);
        self.schedule_next();
    }

    /// Arms the alarm `TEST_DELAY_MS` milliseconds from now.
    fn schedule_next(&mut self)
        ensures
            final(self).qdec.registers == old(self).qdec.registers,
            final(self).qdec.client == old(self).qdec.client,
    {
        let f: u64 = self.alarm.frequency() as u64;
        let delay: u64 = TEST_DELAY_MS as u64;
        assert(f * delay <= u32::MAX * 1000) by (nonlinear_arith)
            requires
                f <= u32::MAX,
                delay == 1000,
        ;
        let delta = ((f * delay) / 1000) as u32;
        let next = self.alarm.now().wrapping_add(delta);
        self.alarm.set_alarm(next);
    }

    /// The alarm fired: turns the decoder on again, reads and resets its
    /// accumulated motion, and arms the next reading. Returns the reading.
    pub fn fired(&mut self) -> (r: u32)
        ensures
            r == old(self).qdec.registers.acc,
            final(self).qdec.registers.acc == 0,
            final(self).qdec.registers.enable,
            final(self).qdec.client == old(self).qdec.client,
    {
        let _ = Qdec::enable_qdec(&mut self.qdec);
        let acc = Qdec::get_acc(&mut self.qdec);
        self.schedule_next();
        acc
    }
}

/// Builds the periodic decoder reader with `client` registered as the
/// decoder's client.
pub fn initialize_all<A: Alarm>(alarm: A, qdec: Qdec, client: usize) -> (r: QdecTest<A>)
    ensures
        r.alarm == alarm,
        r.qdec.registers == qdec.registers,
        r.qdec.client == Some(client),
{
    let mut qdec = qdec;
    qdec.set_client(client);
    QdecTest::new(alarm, qdec)
}

/// Where a board sends the system calls for one driver number.
#[derive(Clone, Copy, Debug, PartialEq, Eq, Structural)]
pub enum Route {
    /// The quadrature decoder capsule.
    Qdec,
    /// The board's other capsules.
    Others,
}

/// The capsules of an nRF52 board: the quadrature decoder, and a table
/// of the board's other drivers.
pub struct Platform<D: QdecDriver, O: crate::syscall::Platform> {
    pub qdec: QdecInterface<D>,
    pub others: O,
}

impl<D: QdecDriver, O: crate::syscall::Platform> Platform<D, O> {
    pub fn new(qdec: QdecInterface<D>, others: O) -> (r: Platform<D, O>)
        ensures
            r.qdec == qdec,
            r.others == others,
    {
        Platform { qdec, others }
    }

    /// The decoder's driver number goes to the decoder capsule; every other
    /// number to the other drivers.
    pub fn route(&self, driver_num: usize) -> (r: Route)
        ensures
            r == if driver_num == QDEC_DRIVER_NUM {
                Route::Qdec
            } else {
                Route::Others
            },
    {
        if driver_num == QDEC_DRIVER_NUM {
            Route::Qdec
        } else {
            Route::Others
        }
    }
}

impl<D: QdecDriver, O: crate::syscall::Platform> crate::syscall::Platform for Platform<D, O> {
    fn command(
        &mut self,
        kernel: &mut Kernel,
        driver_num: usize,
        command_num: usize,
        arg0: usize,
        arg1: usize,
        app_id: AppId,
    ) -> (r: Option<ReturnCode>)
        ensures
            driver_num == QDEC_DRIVER_NUM ==> {
                &&& r.is_some()
                &&& command_num == 0 ==> r == Some(ReturnCode::SUCCESS)
                &&& command_num > 4 ==> r == Some(ReturnCode::ENOSUPPORT)
                &&& final(self).others == old(self).others
                &&& *final(kernel) == *old(kernel)
            },
            driver_num != QDEC_DRIVER_NUM ==> final(self).qdec == old(self).qdec,
    {
        match self.route(driver_num) {
            Route::Qdec => Some(self.qdec.command(kernel, command_num, arg0, arg1, app_id)),
            Route::Others => self.others.command(kernel, driver_num, command_num, arg0, arg1, app_id),
        }
    }

    fn subscribe(
        &mut self,
        kernel: &mut Kernel,
        driver_num: usize,
        subscribe_num: usize,
        callback: Option<Callback>,
        app_id: AppId,
    ) -> (r: Option<ReturnCode>)
        ensures
            driver_num == QDEC_DRIVER_NUM ==> {
                &&& final(self).others == old(self).others
                &&& subscribe_num != 0 ==> r == Some(ReturnCode::ENOSUPPORT) && *final(kernel) == *old(kernel)
                &&& subscribe_num == 0 ==> match old(self).qdec.apps.enter_result(*old(kernel), app_id, App::empty_spec()) {
                    Ok(cur) => r == Some(ReturnCode::SUCCESS) && final(self).qdec.apps.stored(*final(kernel), app_id)
                        == Some(App { callback, ..cur }),
                    Err(e) => r == Some(e.spec_return_code()) && *final(kernel) == *old(kernel),
                }
            },
            driver_num != QDEC_DRIVER_NUM ==> final(self).qdec == old(self).qdec,
    {
        match self.route(driver_num) {
            Route::Qdec => Some(self.qdec.subscribe(kernel, subscribe_num, callback, app_id)),
            Route::Others => self.others.subscribe(kernel, driver_num, subscribe_num, callback, app_id),
        }
    }

    fn allow(
        &mut self,
        kernel: &mut Kernel,
        driver_num: usize,
        allow_num: usize,
        slice: Option<AppSlice>,
        app_id: AppId,
    ) -> (r: Option<ReturnCode>)
        ensures
            driver_num == QDEC_DRIVER_NUM ==> r == Some(ReturnCode::ENOSUPPORT) && *final(kernel) == *old(kernel)
                && *final(self) == *old(self),
            driver_num != QDEC_DRIVER_NUM ==> final(self).qdec == old(self).qdec,
    {
        match self.route(driver_num) {
            Route::Qdec => Some(self.qdec.allow(kernel, app_id, allow_num, slice)),
            Route::Others => self.others.allow(kernel, driver_num, allow_num, slice, app_id),
        }
    }
}

} // verus!
