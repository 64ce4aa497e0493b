use vstd::prelude::*;
use crate::hil::Alarm;

verus! {

/// Frequency of the auxiliary clock that drives the timers.
pub const ACLK_HZ: u32 = 32_768;

/// Field values of the timer's control registers.
pub const TASSEL_ACLK: u16 = 1;
pub const ID_DIVIDED_BY_8: u16 = 3;
pub const MC_STOP: u16 = 0;
pub const MC_CONTINUOUS: u16 = 2;
pub const TAIDEX_DIVIDE_BY_2: u16 = 1;

/// Tick rate of a timer set up for alarms.
pub struct TimerAFrequency {}

impl TimerAFrequency {
    /// The auxiliary clock divided by 8 and then by 2.
    pub fn frequency() -> (r: u32)
        ensures
            r == ACLK_HZ / 16,
    {
        ACLK_HZ / 16
    }
}

/// What the timer is being used for.
#[derive(Clone, Copy, Debug, PartialEq, Eq, Structural)]
pub enum TimerMode {
    Disabled,
    Alarm,
}

/// The timer's registers, one field for each bit field the driver uses.
#[derive(Clone, Copy, Debug, PartialEq, Eq, Structural)]
pub struct TimerRegisters {
    pub clock_source: u16,
    pub input_divider: u16,
    pub mode_control: u16,
    pub interrupt_enable: bool,
    pub interrupt_flag: bool,
    pub input_divider_expansion: u16,
    pub cc0_interrupt_enable: bool,
    pub cc0_interrupt_flag: bool,
    pub counter: u16,
    pub compare0: u16,
}

/// A Timer_A module of the MSP432 used as an alarm.
pub struct TimerA {
    pub registers: TimerRegisters,
    pub mode: TimerMode,
    pub alarm_client: bool,
}

/// The registers once the timer has been set up for alarms: continuous
/// counting of the auxiliary clock divided by 16, timer interrupt off and
/// cleared.
pub open spec fn alarm_setup(r: TimerRegisters) -> TimerRegisters {
    TimerRegisters {
        clock_source: TASSEL_ACLK,
        input_divider: ID_DIVIDED_BY_8,
        mode_control: MC_CONTINUOUS,
        interrupt_enable: false,
        interrupt_flag: false,
        input_divider_expansion: TAIDEX_DIVIDE_BY_2,
        ..r
    }
}

impl TimerA {
    pub fn new(registers: TimerRegisters) -> (r: TimerA)
        ensures
            r.registers == registers,
            r.mode == TimerMode::Disabled,
            !r.alarm_client,
    {
        TimerA { registers, mode: TimerMode::Disabled, alarm_client: false }
    }

    fn setup_for_alarm(&mut self)
        ensures
            final(self).registers == alarm_setup(old(self).registers),
            final(self).mode == TimerMode::Alarm,
            final(self).alarm_client == old(self).alarm_client,
    {
        self.registers.clock_source = TASSEL_ACLK;
        self.registers.input_divider = ID_DIVIDED_BY_8;
        self.registers.mode_control = MC_CONTINUOUS;
        self.registers.interrupt_enable = false;
        self.registers.interrupt_flag = false;
        self.registers.input_divider_expansion = TAIDEX_DIVIDE_BY_2;
        self.mode = TimerMode::Alarm;
    }

    fn stop_timer(&mut self)
        ensures
            final(self).registers == (TimerRegisters { mode_control: MC_STOP, ..old(self).registers }),
            final(self).mode == TimerMode::Disabled,
            final(self).alarm_client == old(self).alarm_client,
    {
        self.registers.mode_control = MC_STOP;
        self.mode = TimerMode::Disabled;
    }

    /// Turns the compare interrupt off; returns whether a client is to be
    /// told that the alarm fired.
    fn handle_alarm_interrupt(&mut self) -> (r: bool)
        ensures
            final(self).registers == (TimerRegisters { cc0_interrupt_enable: false, ..old(self).registers }),
            final(self).mode == old(self).mode,
            final(self).alarm_client == old(self).alarm_client,
            r == old(self).alarm_client,
    {
        self.registers.cc0_interrupt_enable = false;
        self.alarm_client
    }

    /// Serves the timer's interrupt. A pending compare event is cleared; in
    /// alarm mode it also turns the compare interrupt off and is reported to
    /// the client. Returns whether the client is to be told.
    pub fn handle_interrupt(&mut self) -> (r: bool)
        ensures
            final(self).mode == old(self).mode,
            final(self).alarm_client == old(self).alarm_client,
            !old(self).registers.cc0_interrupt_flag ==> !r && final(self).registers == old(self).registers,
            old(self).registers.cc0_interrupt_flag ==> {
                &&& r == (old(self).mode == TimerMode::Alarm && old(self).alarm_client)
                &&& final(self).registers == (TimerRegisters {
                    cc0_interrupt_flag: false,
                    cc0_interrupt_enable: old(self).registers.cc0_interrupt_enable && old(self).mode
                        != TimerMode::Alarm,
                    ..old(self).registers
                })
            },
    {
        let mut fired = false;
        if self.registers.cc0_interrupt_flag {
            if self.mode == TimerMode::Alarm {
                fired = self.handle_alarm_interrupt();
            }
            self.registers.cc0_interrupt_flag = false;
        }
        fired
    }

    /// Registers a client for the alarm.
    pub fn set_client(&mut self)
        ensures
            final(self).alarm_client,
            final(self).registers == old(self).registers,
            final(self).mode == old(self).mode,
    {
        self.alarm_client = true;
    }

    /// The largest value the 16-bit counter reaches.
    pub fn max_tics(&self) -> (r: u32)
        ensures
            r == u16::MAX,
    {
        u16::MAX as u32
    }

    pub fn get_alarm(&self) -> (r: u32)
        ensures
            r == self.registers.compare0,
    {
        self.registers.compare0 as u32
    }

    /// Whether an alarm is armed.
    pub fn is_enabled(&self) -> (r: bool)
        ensures
            r == (self.mode == TimerMode::Alarm && self.registers.cc0_interrupt_enable),
    {
        let int_enabled = self.registers.cc0_interrupt_enable;
        self.mode == TimerMode::Alarm && int_enabled
    }

    /// Disarms the alarm and stops the timer.
    pub fn disable(&mut self)
        ensures
            final(self).registers == (TimerRegisters {
                cc0_interrupt_enable: false,
                mode_control: MC_STOP,
                ..old(self).registers
            }),
            final(self).mode == TimerMode::Disabled,
            final(self).alarm_client == old(self).alarm_client,
    {
        self.registers.cc0_interrupt_enable = false;
        self.stop_timer();
    }

    /// Arms the alarm for counter value `tics` (cut to 16 bits), setting the
    /// timer up for alarms first when it is not.
    pub fn arm(&mut self, tics: u32)
        ensures
            final(self).mode == TimerMode::Alarm,
            final(self).alarm_client == old(self).alarm_client,
            final(self).registers == (TimerRegisters {
                compare0: tics as u16,
                cc0_interrupt_enable: true,
                ..if old(self).mode == TimerMode::Alarm {
                    old(self).registers
                } else {
                    alarm_setup(old(self).registers)
                }
            }),
    {
        if self.mode != TimerMode::Alarm {
            self.setup_for_alarm();
        }
        self.registers.compare0 = #[verifier::truncate] (tics as u16);
        self.registers.cc0_interrupt_enable = true;
    }
}

impl Alarm for TimerA {
    fn frequency(&self) -> (r: u32)
        ensures
            r == ACLK_HZ / 16,
    {
        TimerAFrequency::frequency()
    }

    fn now(&self) -> (r: u32)
        ensures
            r == self.registers.counter,
    {
        self.registers.counter as u32
    }

    fn set_alarm(&mut self, tics: u32)
        ensures
            final(self).mode == TimerMode::Alarm,
            final(self).alarm_client == old(self).alarm_client,
            final(self).registers == (TimerRegisters {
                compare0: tics as u16,
                cc0_interrupt_enable: true,
                ..if old(self).mode == TimerMode::Alarm {
                    old(self).registers
                } else {
                    alarm_setup(old(self).registers)
                }
            }),
    {
        self.arm(tics);
    }
}

} // verus!
