use vstd::prelude::*;
use crate::capabilities::ProcessManagementCapability;
use crate::hil::{ClockPhase, ClockPolarity, FloatingState, InterruptEdge, InterruptPin, SpiMasterDevice};
use crate::kernel::Kernel;
use crate::process::{Context, State};
use crate::returncode::ReturnCode;
use crate::syscall::Syscall;

verus! {

/// Driver numbers whose system calls are served by the remote device.
pub const LED_DRIVER_NUM: usize = 0x00000002;
pub const RNG_DRIVER_NUM: usize = 0x40001;

/// Class number of a command in a forwarded call.
pub const REMOTE_COMMAND: usize = 2;

/// SPI clock rate used to reach the remote device.
pub const SPI_RATE: u32 = 400_000;

/// Words in the data buffer of one forwarded call: the class, the driver
/// number and three arguments.
pub const CALL_WORDS: usize = 5;

/// The four bytes of `y`, most significant first.
pub open spec fn be_bytes(y: u32) -> Seq<u8> {
    seq![
        (y / 16777216) as u8,
        ((y / 65536) % 256) as u8,
        ((y / 256) % 256) as u8,
        (y % 256) as u8,
    ]
}

/// The word whose bytes, most significant first, are `b[0..4]`.
pub open spec fn be_word(b: Seq<u8>) -> nat {
    (b[0] * 16777216 + b[1] * 65536 + b[2] * 256 + b[3]) as nat
}

/// Byte `k` of `data` laid out word after word, each most significant first.
pub open spec fn packed_byte(data: Seq<u32>, k: int) -> u8 {
    be_bytes(data[k / 4])[k % 4]
}

/// One, xor-ed with each of the first `n` bytes of `s`.
pub open spec fn checksum_upto(s: Seq<u8>, n: int) -> u8
    decreases n,
{
    if n <= 0 {
        1u8
    } else {
        checksum_upto(s, n - 1) ^ s[n - 1]
    }
}

/// Whether a call to driver `driver` is served by the remote device.
pub open spec fn remote_route(driver: usize) -> usize {
    if driver == LED_DRIVER_NUM || driver == RNG_DRIVER_NUM {
        1
    } else {
        0
    }
}

/// Forwards system calls over SPI to a second device and hands the answer
/// back to the processes waiting for it. The second device signals through
/// an interrupt pin; a flag tells whether the next signal asks for the
/// pending request to be sent or announces its answer.
pub struct RemoteSystemCall<S: SpiMasterDevice, P: InterruptPin> {
    pub spi: S,
    pub pass_buffer: Option<Vec<u8>>,
    pub read_buffer: Option<Vec<u8>>,
    pub data_buffer: Option<Vec<u32>>,
    pub client: Option<bool>,
    pub pin: P,
    pub capability: ProcessManagementCapability,
}

impl<S: SpiMasterDevice, P: InterruptPin> RemoteSystemCall<S, P> {
    pub fn new(
        pass_buf: Vec<u8>,
        read_buf: Vec<u8>,
        data_buf: Vec<u32>,
        client: bool,
        spi: S,
        syscall_pin: P,
        capability: ProcessManagementCapability,
    ) -> (r: RemoteSystemCall<S, P>)
        ensures
            r.pass_buffer == Some(pass_buf),
            r.read_buffer == Some(read_buf),
            r.data_buffer == Some(data_buf),
            r.client == Some(client),
            r.spi == spi,
            r.pin == syscall_pin,
            r.capability == capability,
    {
        RemoteSystemCall {
            spi,
            pass_buffer: Some(pass_buf),
            read_buffer: Some(read_buf),
            data_buffer: Some(data_buf),
            client: Some(client),
            pin: syscall_pin,
            capability,
        }
    }

    /// Sets up the SPI device and the interrupt pin.
    pub fn configure(&mut self)
        ensures
            final(self).pass_buffer == old(self).pass_buffer,
            final(self).read_buffer == old(self).read_buffer,
            final(self).data_buffer == old(self).data_buffer,
            final(self).client == old(self).client,
    {
        self.spi.configure(ClockPolarity::IdleLow, ClockPhase::SampleLeading, SPI_RATE);
        self.pin.make_input();
        self.pin.clear();
        self.pin.set_floating_state(FloatingState::PullNone);
        self.pin.enable_interrupts(InterruptEdge::RisingEdge);
    }

    /// 1 when calls to `driver` go to the remote device, 0 when they are
    /// served here.
    pub fn determine_route(&self, driver: usize) -> (r: usize)
        ensures
            r == remote_route(driver),
    {
        let mut route: usize = 0;
        if driver == LED_DRIVER_NUM || driver == RNG_DRIVER_NUM {
            route = 1;
        }
        route
    }

    /// Records a call (its class, driver number and three arguments, each cut
    /// to 32 bits) in the data buffer and lays the buffer out in the pass
    /// buffer.
    pub fn fill_buffer(&mut self, system_call_num: usize, driver_num: usize, arg_one: usize, arg_two: usize, arg_three: usize)
        requires
            old(self).data_buffer.is_some(),
            old(self).data_buffer.unwrap()@.len() >= CALL_WORDS,
            old(self).data_buffer.unwrap()@.len() <= usize::MAX / 4,
            old(self).pass_buffer.is_some() ==> old(self).pass_buffer.unwrap()@.len() >= 4
                * old(self).data_buffer.unwrap()@.len(),
        ensures
            final(self).data_buffer.is_some(),
            ({
                let d = final(self).data_buffer.unwrap()@;
                let d0 = old(self).data_buffer.unwrap()@;
                &&& d.len() == d0.len()
                &&& d[0] == system_call_num as u32
                &&& d[1] == driver_num as u32
                &&& d[2] == arg_one as u32
                &&& d[3] == arg_two as u32
                &&& d[4] == arg_three as u32
                &&& forall|k: int| CALL_WORDS <= k < d.len() ==> d[k] == d0[k]
            }),
            final(self).pass_buffer.is_some() == old(self).pass_buffer.is_some(),
            final(self).pass_buffer.is_some() ==> {
                let d = final(self).data_buffer.unwrap()@;
                let pb = final(self).pass_buffer.unwrap()@;
                let pb0 = old(self).pass_buffer.unwrap()@;
                &&& pb.len() == pb0.len()
                &&& forall|k: int| 0 <= k < 4 * d.len() ==> pb[k] == packed_byte(d, k)
                &&& forall|k: int| 4 * d.len() <= k < pb.len() ==> pb[k] == pb0[k]
            },
            final(self).read_buffer == old(self).read_buffer,
            final(self).client == old(self).client,
    {
        let mut data = self.data_buffer.take().unwrap();
        data.set(0, #[verifier::truncate] (system_call_num as u32));
        data.set(1, #[verifier::truncate] (driver_num as u32));
        data.set(2, #[verifier::truncate] (arg_one as u32));
        data.set(3, #[verifier::truncate] (arg_two as u32));
        data.set(4, #[verifier::truncate] (arg_three as u32));
        self.data_buffer = Some(data);
        self.fill_pass_buffer();
    }

    /// Always `false`; the flag itself must be there.
    pub fn get_client(&self) -> (r: bool)
        requires
            self.client.is_some(),
        ensures
            !r,
    {
        false
    }

    /// The bytes of `y`, most significant first.
    fn transform_u32_to_u8_array(&self, y: u32) -> (r: [u8; 4])
        ensures
            r@ == be_bytes(y),
    {
        let b1 = (y / 16777216) as u8;
        let b2 = ((y / 65536) % 256) as u8;
        let b3 = ((y / 256) % 256) as u8;
        let b4 = (y % 256) as u8;
        let r = [b1, b2, b3, b4];
        assert(r@ =~= be_bytes(y));
        r
    }

    /// Lays the data buffer out in the pass buffer, word after word, each
    /// most significant byte first.
    fn fill_pass_buffer(&mut self)
        requires
            old(self).data_buffer.is_some(),
            old(self).data_buffer.unwrap()@.len() <= usize::MAX / 4,
            old(self).pass_buffer.is_some() ==> old(self).pass_buffer.unwrap()@.len() >= 4
                * old(self).data_buffer.unwrap()@.len(),
        ensures
            final(self).data_buffer == old(self).data_buffer,
            final(self).read_buffer == old(self).read_buffer,
            final(self).client == old(self).client,
            final(self).pass_buffer.is_some() == old(self).pass_buffer.is_some(),
            final(self).pass_buffer.is_some() ==> {
                let d = old(self).data_buffer.unwrap()@;
                let pb = final(self).pass_buffer.unwrap()@;
                let pb0 = old(self).pass_buffer.unwrap()@;
                &&& pb.len() == pb0.len()
                &&& forall|k: int| 0 <= k < 4 * d.len() ==> pb[k] == packed_byte(d, k)
                &&& forall|k: int| 4 * d.len() <= k < pb.len() ==> pb[k] == pb0[k]
            },
    {
        if self.pass_buffer.is_none() {
            return;
        }
        let mut pass = self.pass_buffer.take().unwrap();
        let data = self.data_buffer.take().unwrap();
        let ghost pb0 = pass@;
        let n = data.len();
        let mut i: usize = 0;
        while i < n
            invariant
                n == data@.len(),
                n <= usize::MAX / 4,
                i <= n,
                pass@.len() == pb0.len(),
                pb0.len() >= 4 * n,
                forall|k: int| 0 <= k < 4 * i ==> pass@[k] == packed_byte(data@, k),
                forall|k: int| 4 * i <= k < pass@.len() ==> pass@[k] == pb0[k],
            decreases n - i,
        {
            let temp_arr = self.transform_u32_to_u8_array(data[i]);
            let mut j: usize = 0;
            while j < 4
                invariant
                    n == data@.len(),
                    n <= usize::MAX / 4,
                    i < n,
                    j <= 4,
                    temp_arr@ == be_bytes(data@[i as int]),
                    pass@.len() == pb0.len(),
                    pb0.len() >= 4 * n,
                    forall|k: int| 0 <= k < 4 * i + j ==> pass@[k] == packed_byte(data@, k),
                    forall|k: int| 4 * i + j <= k < pass@.len() ==> pass@[k] == pb0[k],
                decreases 4 - j,
            {
                pass.set(j + 4 * i, temp_arr[j]);
                proof {
                    let k = 4 * i + j;
                    assert(k / 4 == i as int && k % 4 == j as int);
                }
                j = j + 1;
            }
            i = i + 1;
        }
        self.data_buffer = Some(data);
        self.pass_buffer = Some(pass);
    }

    /// Replaces the last byte of the pass buffer by one xor-ed with every
    /// byte of the buffer, the old last byte included.
    fn add_checksum(&mut self)
        requires
            old(self).pass_buffer.is_some(),
            old(self).pass_buffer.unwrap()@.len() >= 1,
        ensures
            final(self).pass_buffer.is_some(),
            ({
                let pb0 = old(self).pass_buffer.unwrap()@;
                final(self).pass_buffer.unwrap()@ == pb0.update(
                    pb0.len() - 1,
                    checksum_upto(pb0, pb0.len() as int),
                )
            }),
            final(self).data_buffer == old(self).data_buffer,
            final(self).read_buffer == old(self).read_buffer,
            final(self).client == old(self).client,
    {
        let mut pass = self.pass_buffer.take().unwrap();
        let mut checksum: u8 = 1;
        let mut i: usize = 0;
        while i < pass.len()
            invariant
                i <= pass@.len(),
                pass@ == old(self).pass_buffer.unwrap()@,
                checksum == checksum_upto(pass@, i as int),
            decreases pass@.len() - i,
        {
            checksum = checksum ^ pass[i];
            i = i + 1;
        }
        let last = pass.len() - 1;
        pass.set(last, checksum);
        self.pass_buffer = Some(pass);
    }

    /// Hands the pass and read buffers to the SPI device for one transfer.
    fn send_over_spi(&mut self)
        requires
            old(self).pass_buffer.is_some(),
            old(self).read_buffer.is_some(),
        ensures
            final(self).pass_buffer.is_none(),
            final(self).read_buffer.is_none(),
            final(self).data_buffer == old(self).data_buffer,
            final(self).client == old(self).client,
    {
        let pass = self.pass_buffer.take().unwrap();
        let rbuf = self.read_buffer.take().unwrap();
        let len = pass.len();
        let _ = self.spi.read_write_bytes(pass, Some(rbuf), len);
    }

    /// Seals the pass buffer with its checksum and sends it, with the read
    /// buffer, to the remote device.
    pub fn send_data(&mut self) -> (r: ReturnCode)
        requires
            old(self).pass_buffer.is_some(),
            old(self).pass_buffer.unwrap()@.len() >= 1,
            old(self).read_buffer.is_some(),
        ensures
            r == ReturnCode::SUCCESS,
            final(self).pass_buffer.is_none(),
            final(self).read_buffer.is_none(),
            final(self).data_buffer == old(self).data_buffer,
            final(self).client == old(self).client,
    {
        self.add_checksum();
        self.send_over_spi();
        ReturnCode::SUCCESS
    }

    /// The word whose bytes, most significant first, are `b`.
    fn transform_u8_array_to_u32(&self, b: [u8; 4]) -> (r: u32)
        ensures
            r == be_word(b@),
    {
        let y: u32 = (b[0] as u32) * 16777216 + (b[1] as u32) * 65536 + (b[2] as u32) * 256 + (b[3] as u32);
        y
    }

    /// The answer of the remote device: the first four bytes of the read
    /// buffer, most significant first.
    fn get_syscall_return_value(&self) -> (r: u32)
        requires
            self.read_buffer.is_some(),
            self.read_buffer.unwrap()@.len() >= 4,
        ensures
            r == be_word(self.read_buffer.unwrap()@),
    {
        let rb = self.read_buffer.as_ref().unwrap();
        let temp: [u8; 4] = [rb[0], rb[1], rb[2], rb[3]];
        self.transform_u8_array_to_u32(temp)
    }

    /// Accepts a process name for a later remote call; nothing is kept yet.
    pub fn enqueue_process(&self, _name: &str) {
    }

    /// Gives every process waiting on a remote call the remote device's
    /// answer and lets it run again.
    pub fn set_processes_to_run(&mut self, kernel: &mut Kernel)
        requires
            old(kernel).wf(),
            old(self).read_buffer.is_some(),
            old(self).read_buffer.unwrap()@.len() >= 4,
        ensures
            final(kernel).wf(),
            *final(self) == *old(self),
            final(kernel).slots().len() == old(kernel).slots().len(),
            forall|j: int|
                0 <= j < old(kernel).slots().len() ==> {
                    let waiting = old(kernel).occupied(j) && old(kernel).proc(j).state
                        == State::WaitingOnRemote;
                    &&& !waiting ==> #[trigger] final(kernel).slots()[j] == old(kernel).slots()[j]
                    &&& waiting ==> final(kernel).proc(j).state == State::Running
                        && final(kernel).proc(j).context == Context {
                        r0: be_word(old(self).read_buffer.unwrap()@) as usize,
                        ..old(kernel).proc(j).context
                    }
                },
    {
        let return_value = self.get_syscall_return_value();
        let _ = kernel.resume_waiting(&self.capability, return_value as usize);
    }

    /// Completion of an SPI transfer: flips the flag and takes the buffers
    /// back.
    pub fn read_write_done(&mut self, write: Vec<u8>, read: Option<Vec<u8>>, _len: usize)
        requires
            old(self).client.is_some(),
            read.is_some(),
        ensures
            final(self).client == Some(!old(self).client.unwrap()),
            final(self).pass_buffer == Some(write),
            final(self).read_buffer == read,
            final(self).data_buffer == old(self).data_buffer,
    {
        let c = self.client.unwrap();
        self.client = Some(!c);
        let rbuf = read.unwrap();
        self.pass_buffer = Some(write);
        self.read_buffer = Some(rbuf);
    }

    /// The remote device signalled: with the flag set, the pending request
    /// is sent; otherwise the answer is handed to the waiting processes.
    pub fn fired(&mut self, kernel: &mut Kernel)
        requires
            old(kernel).wf(),
            old(self).read_buffer.is_some(),
            old(self).client.is_some(),
            old(self).client.unwrap() ==> old(self).pass_buffer.is_some() && old(self).pass_buffer.unwrap()@.len() >= 1,
            !old(self).client.unwrap() ==> old(self).read_buffer.unwrap()@.len() >= 4,
        ensures
            final(kernel).wf(),
            final(self).client == old(self).client,
            final(self).data_buffer == old(self).data_buffer,
            old(self).client.unwrap() ==> *final(kernel) == *old(kernel) && final(self).pass_buffer.is_none()
                && final(self).read_buffer.is_none(),
            !old(self).client.unwrap() ==> {
                &&& final(self).pass_buffer == old(self).pass_buffer
                &&& final(self).read_buffer == old(self).read_buffer
                &&& final(kernel).slots().len() == old(kernel).slots().len()
                &&& forall|j: int|
                    0 <= j < old(kernel).slots().len() ==> {
                        let waiting = old(kernel).occupied(j) && old(kernel).proc(j).state
                            == State::WaitingOnRemote;
                        &&& !waiting ==> #[trigger] final(kernel).slots()[j] == old(kernel).slots()[j]
                        &&& waiting ==> final(kernel).proc(j).state == State::Running
                            && final(kernel).proc(j).context == Context {
                            r0: be_word(old(self).read_buffer.unwrap()@) as usize,
                            ..old(kernel).proc(j).context
                        }
                    }
            },
    {
        if self.client.unwrap() {
            let _ = self.send_data();
        } else {
            self.set_processes_to_run(kernel);
        }
    }
    /// Serves system call `call` of the process in slot `i` remotely when
    /// it is a command to a driver that lives on the remote device: the call
    /// is packed, sent, and the process waits for the answer. Returns whether
    /// the call was taken; otherwise nothing changes and it is to be served
    /// here.
    pub fn remote_syscall(&mut self, kernel: &mut Kernel, i: usize, call: Syscall) -> (r: bool)
        requires
            old(kernel).wf(),
            old(self).data_buffer.is_some(),
            old(self).data_buffer.unwrap()@.len() >= CALL_WORDS,
            old(self).data_buffer.unwrap()@.len() <= usize::MAX / 4,
            old(self).pass_buffer.is_some(),
            old(self).pass_buffer.unwrap()@.len() >= 4 * old(self).data_buffer.unwrap()@.len(),
            old(self).read_buffer.is_some(),
        ensures
            final(kernel).wf(),
            r == match call {
                Syscall::Command { driver_number, .. } => remote_route(driver_number) == 1,
                _ => false,
            },
            !r ==> *final(kernel) == *old(kernel) && final(self).pass_buffer == old(self).pass_buffer
                && final(self).read_buffer == old(self).read_buffer && final(self).data_buffer
                == old(self).data_buffer,
            r ==> {
                &&& final(self).pass_buffer.is_none()
                &&& final(self).read_buffer.is_none()
                &&& final(self).data_buffer.unwrap()@ == match call {
                    Syscall::Command { driver_number, subdriver_number, arg0, arg1 } => seq![
                        REMOTE_COMMAND as u32,
                        driver_number as u32,
                        subdriver_number as u32,
                        arg0 as u32,
                        arg1 as u32,
                    ].add(old(self).data_buffer.unwrap()@.subrange(CALL_WORDS as int, old(self).data_buffer.unwrap()@.len() as int)),
                    _ => Seq::empty(),
                }
                &&& old(kernel).occupied(i as int) ==> final(kernel).same_except(*old(kernel), i as int)
                    && final(kernel).proc(i as int).state == if old(kernel).proc(i as int).state
                    == State::Panicked {
                    State::Panicked
                } else {
                    State::WaitingOnRemote
                }
            },
            final(self).client == old(self).client,
    {
        match call {
            Syscall::Command { driver_number, subdriver_number, arg0, arg1 } => {
                if self.determine_route(driver_number) == 0 {
                    return false;
                }
                self.fill_buffer(REMOTE_COMMAND, driver_number, subdriver_number, arg0, arg1);
                proof {
                    assert(self.data_buffer.unwrap()@ =~= seq![
                        REMOTE_COMMAND as u32,
                        driver_number as u32,
                        subdriver_number as u32,
                        arg0 as u32,
                        arg1 as u32,
                    ].add(old(self).data_buffer.unwrap()@.subrange(CALL_WORDS as int, old(self).data_buffer.unwrap()@.len() as int)));
                }
                let _ = self.send_data();
                kernel.set_waiting_on_remote(i);
                true
            },
            _ => false,
        }
    }
}

} // verus!
