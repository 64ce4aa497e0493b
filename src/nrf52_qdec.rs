use vstd::prelude::*;
use crate::hil::QdecDriver;
use crate::returncode::ReturnCode;

verus! {

/// Positions of the decoder's events and of their interrupt enables.
pub const EVENT_SAMPLERDY: usize = 0;
pub const EVENT_REPORTRDY: usize = 1;
pub const EVENT_ACCOF: usize = 2;
pub const EVENT_DBLRDY: usize = 3;
pub const EVENT_STOPPED: usize = 4;

/// Sample period setting of 4096 microseconds.
pub const SAMPLEPER_US4096: u32 = 5;

/// The decoder's registers, as the driver reads and writes them.
#[derive(Clone, Copy, Debug)]
pub struct QdecRegisters {
    pub events: [bool; 5],
    pub inten: [bool; 5],
    pub enable: bool,
    pub started: bool,
    pub sample_per: u32,
    pub acc: u32,
    pub acc_read: u32,
    pub psel_a: u32,
    pub psel_b: u32,
}

/// Quadrature decoder of the nRF52.
pub struct Qdec {
    pub registers: QdecRegisters,
    pub client: Option<usize>,
}

impl Qdec {
    /// A decoder with every register cleared and no client.
    pub fn new() -> (r: Qdec)
        ensures
            r.client.is_none(),
            !r.registers.enable,
            r.registers.acc == 0,
    {
        Qdec {
            registers: QdecRegisters {
                events: [false; 5],
                inten: [false; 5],
                enable: false,
                started: false,
                sample_per: 0,
                acc: 0,
                acc_read: 0,
                psel_a: 0,
                psel_b: 0,
            },
            client: None,
        }
    }

    /// Connects the decoder's two inputs to pins `pin_a` and `pin_b` of port 0.
    pub fn set_pins(&mut self, pin_a: u32, pin_b: u32)
        ensures
            final(self).registers == (QdecRegisters { psel_a: pin_a % 32, psel_b: pin_b % 32, ..old(self).registers }),
            final(self).client == old(self).client,
    {
        self.registers.psel_a = pin_a % 32;
        self.registers.psel_b = pin_b % 32;
    }

    /// Registers the client that receives the samples.
    pub fn set_client(&mut self, client: usize)
        ensures
            final(self).client == Some(client),
            final(self).registers == old(self).registers,
    {
        self.client = Some(client);
    }

    /// Latches the accumulator into its read register and clears it.
    fn read_clear_acc(&mut self) -> (r: u32)
        ensures
            r == old(self).registers.acc,
            final(self).registers == (QdecRegisters { acc: 0, acc_read: old(self).registers.acc, ..old(self).registers }),
            final(self).client == old(self).client,
    {
        self.registers.acc_read = self.registers.acc;
        self.registers.acc = 0;
        self.registers.acc_read
    }

    /// Serves the decoder's interrupt. With a client registered, the pending
    /// events other than `STOPPED` are cleared and the accumulated motion is
    /// reported: once for a sample-ready event, then once more for the
    /// interrupt itself. Returns the values for the client, in order. The
    /// sample-ready and stopped interrupts are on afterwards.
    pub fn handle_interrupt(&mut self) -> (r: Vec<u32>)
        ensures
            final(self).client == old(self).client,
            final(self).registers.inten@ == old(self).registers.inten@.update(EVENT_SAMPLERDY as int, true).update(
                EVENT_STOPPED as int,
                true,
            ),
            old(self).client.is_none() ==> r@ == Seq::<u32>::empty() && final(self).registers.events
                == old(self).registers.events && final(self).registers.acc == old(self).registers.acc,
            old(self).client.is_some() ==> {
                &&& final(self).registers.acc == 0
                &&& final(self).registers.events@ == seq![false, false, false, false, old(self).registers.events[4]]
                &&& r@ == if old(self).registers.events[0] {
                    seq![old(self).registers.acc, 0u32]
                } else {
                    seq![old(self).registers.acc]
                }
            },
    {
        self.disable_interrupts();
        let mut out: Vec<u32> = Vec::new();
        if self.client.is_some() {
            let mut i: usize = 0;
            while i < 4
                invariant
                    i <= 4,
                    self.client == old(self).client,
                    self.registers.inten@ == old(self).registers.inten@.update(EVENT_SAMPLERDY as int, false),
                    forall|k: int| 0 <= k < i ==> !self.registers.events@[k],
                    forall|k: int| i <= k < 5 ==> self.registers.events@[k] == old(self).registers.events@[k],
                    i == 0 ==> out@ == Seq::<u32>::empty() && self.registers.acc == old(self).registers.acc,
                    i > 0 ==> out@ == if old(self).registers.events[0] {
                        seq![old(self).registers.acc]
                    } else {
                        Seq::<u32>::empty()
                    },
                    i > 0 && old(self).registers.events[0] ==> self.registers.acc == 0,
                    i > 0 && !old(self).registers.events[0] ==> self.registers.acc == old(self).registers.acc,
                decreases 4 - i,
            {
                if self.registers.events[i] {
                    self.registers.events[i] = false;
                    if i == EVENT_SAMPLERDY {
                        self.registers.inten[EVENT_SAMPLERDY] = false;
                        let v = self.read_clear_acc();
                        out.push(v);
                    }
                }
                i = i + 1;
            }
            let v = self.read_clear_acc();
            out.push(v);
        }
        self.enable_interrupts();
        proof {
            assert(self.registers.inten@ =~= old(self).registers.inten@.update(EVENT_SAMPLERDY as int, true).update(
                EVENT_STOPPED as int,
                true,
            ));
            if old(self).client.is_some() {
                assert(self.registers.events@ =~= seq![false, false, false, false, old(self).registers.events[4]]);
            }
        }
        out
    }

    /// Turns on the sample-ready and stopped interrupts.
    pub fn enable_interrupts(&mut self)
        ensures
            final(self).registers == (QdecRegisters {
                inten: final(self).registers.inten,
                ..old(self).registers
            }),
            final(self).registers.inten@ == old(self).registers.inten@.update(EVENT_SAMPLERDY as int, true).update(
                EVENT_STOPPED as int,
                true,
            ),
            final(self).client == old(self).client,
    {
        self.registers.inten[EVENT_SAMPLERDY] = true;
        self.registers.inten[EVENT_STOPPED] = true;
    }

    /// Turns off the sample-ready interrupt.
    pub fn disable_interrupts(&mut self)
        ensures
            final(self).registers == (QdecRegisters {
                inten: final(self).registers.inten,
                ..old(self).registers
            }),
            final(self).registers.inten@ == old(self).registers.inten@.update(EVENT_SAMPLERDY as int, false),
            final(self).client == old(self).client,
    {
        self.registers.inten[EVENT_SAMPLERDY] = false;
    }

    /// Turns on the stopped interrupt and sets the sample period.
    pub fn set_sample_rate(&mut self)
        ensures
            final(self).registers == (QdecRegisters {
                inten: final(self).registers.inten,
                sample_per: SAMPLEPER_US4096,
                ..old(self).registers
            }),
            final(self).registers.inten@ == old(self).registers.inten@.update(EVENT_STOPPED as int, true),
            final(self).client == old(self).client,
    {
        self.registers.inten[EVENT_STOPPED] = true;
        self.registers.sample_per = SAMPLEPER_US4096;
    }

    /// Turns the decoder on and starts sampling.
    pub fn enable(&mut self)
        ensures
            final(self).registers == (QdecRegisters {
                enable: true,
                started: true,
                sample_per: SAMPLEPER_US4096,
                ..old(self).registers
            }),
            final(self).client == old(self).client,
    {
        self.registers.enable = true;
        self.registers.sample_per = SAMPLEPER_US4096;
        self.registers.started = true;
    }

    /// `SUCCESS` when the decoder is on, `FAIL` otherwise.
    pub fn is_enabled(&self) -> (r: ReturnCode)
        ensures
            r == if self.registers.enable {
                ReturnCode::SUCCESS
            } else {
                ReturnCode::FAIL
            },
    {
        if self.registers.enable {
            ReturnCode::SUCCESS
        } else {
            ReturnCode::FAIL
        }
    }
}

impl Qdec {
    /// Turns the decoder on with its sample period and stopped interrupt
    /// set; reports whether it is on.
    pub fn enable_qdec(&mut self) -> (r: ReturnCode)
        ensures
            r == ReturnCode::SUCCESS,
            final(self).registers == (QdecRegisters {
                enable: true,
                started: true,
                sample_per: SAMPLEPER_US4096,
                inten: final(self).registers.inten,
                ..old(self).registers
            }),
            final(self).registers.inten@ == old(self).registers.inten@.update(EVENT_STOPPED as int, true),
            final(self).client == old(self).client,
    {
        self.enable();
        self.set_sample_rate();
        self.is_enabled()
    }

    /// Reads the accumulated motion and resets it.
    pub fn get_acc(&mut self) -> (r: u32)
        ensures
            r == old(self).registers.acc,
            final(self).registers == (QdecRegisters { acc: 0, acc_read: old(self).registers.acc, ..old(self).registers }),
            final(self).client == old(self).client,
    {
        self.read_clear_acc()
    }
}

impl QdecDriver for Qdec {
    open spec fn spec_acc(&self) -> u32 {
        self.registers.acc
    }

    open spec fn spec_enabled(&self) -> bool {
        self.registers.enable
    }

    fn enable_interrupts(&mut self) -> (r: ReturnCode) {
        Qdec::enable_interrupts(self);
        ReturnCode::SUCCESS
    }

    fn enable_qdec(&mut self) -> (r: ReturnCode) {
        Qdec::enable_qdec(self)
    }

    fn enabled(&self) -> (r: ReturnCode) {
        self.is_enabled()
    }

    fn get_acc(&mut self) -> (r: u32) {
        Qdec::get_acc(self)
    }
}

} // verus!
