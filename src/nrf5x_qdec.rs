use vstd::prelude::*;
use crate::returncode::ReturnCode;

verus! {

/// Receives the mask of compare events that fired.
pub trait CompareClient {
    fn compare(&mut self, val: u32);
}

/// The registers of the nRF5x decoder that the driver uses.
#[derive(Clone, Copy, Debug)]
pub struct Nrf5xQdecRegisters {
    pub events: [bool; 5],
    pub inten: [bool; 5],
    pub enable: bool,
    pub acc: u32,
}

/// Mask with bit `i` set for each of the first `n` events that is set.
pub open spec fn event_mask(events: Seq<bool>, n: int) -> nat
    decreases n,
{
    if n <= 0 {
        0
    } else {
        event_mask(events, n - 1) + if events[n - 1] {
            vstd::arithmetic::power2::pow2((n - 1) as nat)
        } else {
            0
        }
    }
}

/// Quadrature decoder of the nRF5x family, reporting compare events.
pub struct QDEC {
    pub registers: Nrf5xQdecRegisters,
    pub client: Option<usize>,
    pub sample: usize,
}

impl QDEC {
    /// A decoder with every register cleared, no client, and sample period
    /// setting `sample`.
    pub fn new(sample: usize) -> (r: QDEC)
        ensures
            r.client.is_none(),
            r.sample == sample,
            !r.registers.enable,
            r.registers.events@ == seq![false, false, false, false, false],
            r.registers.inten@ == seq![false, false, false, false, false],
            r.registers.acc == 0,
    {
        let r = QDEC {
            registers: Nrf5xQdecRegisters { events: [false; 5], inten: [false; 5], enable: false, acc: 0 },
            client: None,
            sample,
        };
        assert(r.registers.events@ =~= seq![false, false, false, false, false]);
        assert(r.registers.inten@ =~= seq![false, false, false, false, false]);
        r
    }

    pub fn set_client(&mut self, client: usize)
        ensures
            final(self).client == Some(client),
            final(self).registers == old(self).registers,
            final(self).sample == old(self).sample,
    {
        self.client = Some(client);
    }

    /// With a client registered, clears each of the first four events that
    /// fired, turns its interrupt off, and returns the mask of those events
    /// for the client. Without one, changes nothing and returns `None`.
    pub fn handle_interrupt(&mut self) -> (r: Option<u32>)
        ensures
            final(self).client == old(self).client,
            final(self).sample == old(self).sample,
            old(self).client.is_none() ==> r.is_none() && final(self).registers == old(self).registers,
            old(self).client.is_some() ==> {
                let ev = old(self).registers.events@;
                let ie = old(self).registers.inten@;
                &&& r == Some(event_mask(ev, 4) as u32)
                &&& final(self).registers.events@ == seq![false, false, false, false, ev[4]]
                &&& final(self).registers.inten@ == seq![
                    ie[0] && !ev[0],
                    ie[1] && !ev[1],
                    ie[2] && !ev[2],
                    ie[3] && !ev[3],
                    ie[4],
                ]
                &&& final(self).registers.enable == old(self).registers.enable
                &&& final(self).registers.acc == old(self).registers.acc
            },
    {
        if self.client.is_none() {
            return None;
        }
        let ghost ev = self.registers.events@;
        let ghost ie = self.registers.inten@;
        let mut val: u32 = 0;
        let mut bit: u32 = 1;
        let mut i: usize = 0;
        proof {
            vstd::arithmetic::power2::lemma2_to64();
        }
        while i < 4
            invariant
                i <= 4,
                ev == old(self).registers.events@,
                ie == old(self).registers.inten@,
                self.client == old(self).client,
                self.sample == old(self).sample,
                self.registers.enable == old(self).registers.enable,
                self.registers.acc == old(self).registers.acc,
                bit == vstd::arithmetic::power2::pow2(i as nat),
                val == event_mask(ev, i as int),
                val < bit,
                forall|k: int| 0 <= k < i ==> !self.registers.events@[k],
                forall|k: int| 0 <= k < i ==> self.registers.inten@[k] == (ie[k] && !ev[k]),
                forall|k: int| i <= k < 5 ==> self.registers.events@[k] == ev[k],
                forall|k: int| i <= k < 5 ==> self.registers.inten@[k] == ie[k],
            decreases 4 - i,
        {
            proof {
                vstd::arithmetic::power2::lemma_pow2_unfold((i + 1) as nat);
                vstd::arithmetic::power2::lemma2_to64();
            }
            if self.registers.events[i] {
                val = val + bit;
                self.registers.events[i] = false;
                self.registers.inten[i] = false;
            }
            bit = bit * 2;
            i = i + 1;
        }
        proof {
            assert(self.registers.events@ =~= seq![false, false, false, false, ev[4]]);
            assert(self.registers.inten@ =~= seq![
                ie[0] && !ev[0],
                ie[1] && !ev[1],
                ie[2] && !ev[2],
                ie[3] && !ev[3],
                ie[4],
            ]);
        }
        Some(val)
    }

    /// Turns on the sample-ready interrupt.
    pub fn enable_interrupts(&mut self)
        ensures
            final(self).registers.inten@ == old(self).registers.inten@.update(0, true),
            final(self).registers.events == old(self).registers.events,
            final(self).registers.enable == old(self).registers.enable,
            final(self).registers.acc == old(self).registers.acc,
            final(self).client == old(self).client,
    {
        self.registers.inten[0] = true;
    }

    /// Turns off the sample-ready interrupt.
    pub fn disable_interrupts(&mut self)
        ensures
            final(self).registers.inten@ == old(self).registers.inten@.update(0, false),
            final(self).registers.events == old(self).registers.events,
            final(self).registers.enable == old(self).registers.enable,
            final(self).registers.acc == old(self).registers.acc,
            final(self).client == old(self).client,
    {
        self.registers.inten[0] = false;
    }

    /// Whether the sample-ready interrupt is on.
    pub fn interrupts_enable(&self) -> (r: bool)
        ensures
            r == self.registers.inten@[0],
    {
        self.registers.inten[0]
    }

    /// Turns the decoder on.
    pub fn enable(&mut self) -> (r: ReturnCode)
        ensures
            r == ReturnCode::SUCCESS,
            final(self).registers.enable,
            final(self).registers.events == old(self).registers.events,
            final(self).registers.inten == old(self).registers.inten,
            final(self).registers.acc == old(self).registers.acc,
            final(self).client == old(self).client,
    {
        self.registers.enable = true;
        ReturnCode::SUCCESS
    }

    pub fn is_enabled(&self) -> (r: bool)
        ensures
            r == self.registers.enable,
    {
        self.registers.enable
    }

    /// The accumulated motion.
    pub fn get_ticks(&self) -> (r: Result<u32, ReturnCode>)
        ensures
            r == Ok::<u32, ReturnCode>(self.registers.acc),
    {
        Ok(self.registers.acc)
    }
}

} // verus!
