use vstd::prelude::*;
use crate::kernel::Kernel;
use crate::returncode::ReturnCode;

verus! {

/// A chip's quadrature decoder as the capsules see it: an accumulator of
/// motion, and whether the decoder is on.
pub trait QdecDriver {
    /// The motion accumulated since the last read.
    spec fn spec_acc(&self) -> u32;

    /// Whether the decoder is on.
    spec fn spec_enabled(&self) -> bool;

    /// Turns on the sample-ready interrupt.
    fn enable_interrupts(&mut self) -> (r: ReturnCode)
        ensures
            r == ReturnCode::SUCCESS,
            final(self).spec_acc() == old(self).spec_acc(),
            final(self).spec_enabled() == old(self).spec_enabled(),
    ;

    /// Turns the decoder on; reports whether it is on.
    fn enable_qdec(&mut self) -> (r: ReturnCode)
        ensures
            r == if final(self).spec_enabled() {
                ReturnCode::SUCCESS
            } else {
                ReturnCode::FAIL
            },
            final(self).spec_acc() == old(self).spec_acc(),
    ;

    /// `SUCCESS` when the decoder is on, `FAIL` otherwise.
    fn enabled(&self) -> (r: ReturnCode)
        ensures
            r == if self.spec_enabled() {
                ReturnCode::SUCCESS
            } else {
                ReturnCode::FAIL
            },
    ;

    /// Reads the accumulated motion and resets it.
    fn get_acc(&mut self) -> (r: u32)
        ensures
            r == old(self).spec_acc(),
            final(self).spec_acc() == 0,
            final(self).spec_enabled() == old(self).spec_enabled(),
    ;
}

/// Receives the decoder's notifications.
pub trait QdecClient {
    /// A new sample is ready.
    fn sample_ready(&mut self, kernel: &mut Kernel)
        requires
            old(kernel).wf(),
        ensures
            final(kernel).wf(),
    ;

    /// The accumulator overflowed.
    fn overflow(&mut self, kernel: &mut Kernel)
        requires
            old(kernel).wf(),
        ensures
            final(kernel).wf(),
    ;
}

/// A free-running counter with one compare alarm.
pub trait Alarm {
    /// Counter ticks per second.
    fn frequency(&self) -> u32;

    /// The counter's current value.
    fn now(&self) -> u32;

    /// Fires once the counter reaches `tics`.
    fn set_alarm(&mut self, tics: u32);
}

/// Clock level while the SPI bus is idle.
#[derive(Clone, Copy, Debug, PartialEq, Eq, Structural)]
pub enum ClockPolarity {
    IdleLow,
    IdleHigh,
}

/// Clock edge on which SPI data is sampled.
#[derive(Clone, Copy, Debug, PartialEq, Eq, Structural)]
pub enum ClockPhase {
    SampleLeading,
    SampleTrailing,
}

/// Pull resistor of an input pin.
#[derive(Clone, Copy, Debug, PartialEq, Eq, Structural)]
pub enum FloatingState {
    PullUp,
    PullDown,
    PullNone,
}

/// Edge on which a pin interrupts.
#[derive(Clone, Copy, Debug, PartialEq, Eq, Structural)]
pub enum InterruptEdge {
    RisingEdge,
    FallingEdge,
    EitherEdge,
}

/// One device on an SPI bus. A transfer takes the buffers over; they come
/// back with the completion.
pub trait SpiMasterDevice {
    fn configure(&mut self, cpol: ClockPolarity, cpal: ClockPhase, rate: u32);

    fn read_write_bytes(&mut self, write: Vec<u8>, read: Option<Vec<u8>>, len: usize) -> ReturnCode;
}

/// A GPIO pin that can interrupt.
pub trait InterruptPin {
    fn make_input(&mut self);

    fn clear(&mut self);

    fn set_floating_state(&mut self, state: FloatingState);

    fn enable_interrupts(&mut self, edge: InterruptEdge);
}

} // verus!
