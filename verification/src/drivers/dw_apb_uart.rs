//! DesignWare APB UART.
use vstd::prelude::*;
use crate::mmio::{read_from, reported, written, Request, Step};

verus! {

/// Size of the register window the UART needs.
pub const DW_APB_UART_SIZE: usize = 0x100;
/// Receive buffer register.
pub const DW_APB_UART_RHR: usize = 0x00;
/// Transmit holding register.
pub const DW_APB_UART_THR: usize = 0x00;
/// Interrupt enable register.
pub const DW_APB_UART_IER: usize = 0x04;
/// Enable "received data available" interrupt.
pub const DW_APB_UART_IER_ERBFI: u32 = 0x1;
/// FIFO control register.
pub const DW_APB_UART_FCR: usize = 0x08;
/// FIFO enable.
pub const DW_APB_UART_FCR_FIFOE: u32 = 0x1;
/// Modem control register.
pub const DW_APB_UART_MCR: usize = 0x10;
/// OUT2 (routes the interrupt line), bit 3.
pub const DW_APB_UART_MCR_OUT2: u32 = 0x8;
/// Line status register.
pub const DW_APB_UART_LSR: usize = 0x14;
/// Transmitter empty, bit 6.
pub const DW_APB_UART_LSR_TEMT: u32 = 0x40;
/// Data ready.
pub const DW_APB_UART_LSR_DR: u32 = 0x1;

/// The transmitter cannot take a byte: the line status has TEMT clear.
pub open spec fn tx_fifo_full(lsr: u32) -> bool {
    lsr & DW_APB_UART_LSR_TEMT == 0
}

/// Nothing has been received: the line status has DR clear.
pub open spec fn rx_fifo_empty(lsr: u32) -> bool {
    lsr & DW_APB_UART_LSR_DR == 0
}

/// The byte held in the low eight bits of a receive buffer register value.
pub open spec fn received_byte(rhr: u32) -> u8 {
    (rhr & 0xFF) as u8
}

/// A DesignWare APB UART, identified by the base address of its registers.
pub struct DwApbUart {
    base_address: usize,
}

impl DwApbUart {
    /// The base address of the register window.
    pub closed spec fn base(&self) -> usize {
        self.base_address
    }

    /// A placeholder UART at address zero.
    pub fn invalid() -> (uart: Self)
        ensures
            uart.base() == 0,
    {
        Self { base_address: 0 }
    }

    /// A UART at `base_address`, provided the register window of `range`
    /// bytes covers all of its registers.
    pub fn new(base_address: usize, range: usize) -> (res: Result<Self, ()>)
        ensures
            res is Err <==> range < DW_APB_UART_SIZE,
            res is Err <==> range < 0x100,
            res matches Ok(uart) ==> uart.base() == base_address,
    {
        if range < DW_APB_UART_SIZE {
            return Err(());
        }
        Ok(Self { base_address })
    }

    /// The base address of the register window.
    pub fn base_address(&self) -> (r: usize)
        ensures
            r == self.base(),
    {
        self.base_address
    }

    /// Whether a line status value says the transmitter is still busy.
    pub fn is_tx_fifo_full(lsr: u32) -> (r: bool)
        ensures
            r == tx_fifo_full(lsr),
    {
        (lsr & DW_APB_UART_LSR_TEMT) == 0
    }

    /// Whether a line status value says no byte has been received.
    pub fn is_rx_fifo_empty(lsr: u32) -> (r: bool)
        ensures
            r == rx_fifo_empty(lsr),
    {
        (lsr & DW_APB_UART_LSR_DR) == 0
    }

    /// The register writes that enable the receive interrupt, in order:
    /// FIFOs on, "received data available" interrupt on, OUT2 set.
    pub fn enable_interrupt(&self) -> (writes: Vec<Request>)
        ensures
            writes@ == seq![
                Request::Write { offset: DW_APB_UART_FCR, value: DW_APB_UART_FCR_FIFOE },
                Request::Write { offset: DW_APB_UART_IER, value: DW_APB_UART_IER_ERBFI },
                Request::Write { offset: DW_APB_UART_MCR, value: DW_APB_UART_MCR_OUT2 },
            ],
            writes@ == seq![
                Request::Write { offset: 0x08, value: 0x1 },
                Request::Write { offset: 0x04, value: 0x1 },
                Request::Write { offset: 0x10, value: 0x8 },
            ],
    {
        let mut writes: Vec<Request> = Vec::new();
        writes.push(Request::Write { offset: DW_APB_UART_FCR, value: DW_APB_UART_FCR_FIFOE });
        writes.push(Request::Write { offset: DW_APB_UART_IER, value: DW_APB_UART_IER_ERBFI });
        writes.push(Request::Write { offset: DW_APB_UART_MCR, value: DW_APB_UART_MCR_OUT2 });
        writes
    }

    /// Sending one byte: wait until the transmitter is empty, then write it.
    pub fn putc(&self, c: u8) -> (op: PutChar)
        ensures
            op == (PutChar { byte: c, phase: PutCharPhase::PollStatus }),
    {
        PutChar { byte: c, phase: PutCharPhase::PollStatus }
    }

    /// Receiving one byte, if one has arrived.
    pub fn getc(&self) -> (op: GetChar)
        ensures
            op == (GetChar { phase: GetCharPhase::PollStatus }),
    {
        GetChar { phase: GetCharPhase::PollStatus }
    }
}

/// Where a byte transmission stands.
#[derive(Clone, Copy, Debug, PartialEq, Eq, Structural)]
pub enum PutCharPhase {
    /// About to read the line status.
    PollStatus,
    /// The input is the line status just read.
    CheckStatus,
    /// The byte has been written to the transmit holding register.
    Transmitted,
    /// The transmission has been reported done.
    Finished,
}

/// Transmission of one byte.
#[derive(Clone, Copy, Debug, PartialEq, Eq, Structural)]
pub struct PutChar {
    pub byte: u8,
    pub phase: PutCharPhase,
}

impl PutChar {
    /// The next state and step, given the value that answered the last request.
    pub open spec fn next(self, input: u32) -> (PutChar, Step<()>) {
        match self.phase {
            PutCharPhase::PollStatus => (
                PutChar { phase: PutCharPhase::CheckStatus, ..self },
                Step::Io(Request::Read { offset: DW_APB_UART_LSR }),
            ),
            PutCharPhase::CheckStatus => if tx_fifo_full(input) {
                (PutChar { phase: PutCharPhase::PollStatus, ..self }, Step::Io(Request::Spin))
            } else {
                (
                    PutChar { phase: PutCharPhase::Transmitted, ..self },
                    Step::Io(Request::Write { offset: DW_APB_UART_THR, value: self.byte as u32 }),
                )
            },
            PutCharPhase::Transmitted => (PutChar { phase: PutCharPhase::Finished, ..self }, Step::Done(())),
            PutCharPhase::Finished => (self, Step::Io(Request::Spin)),
        }
    }

    /// Advance by one step; `input` is the value of the register read last
    /// asked for, and is ignored after any other request.
    pub fn resume(&mut self, input: u32) -> (step: Step<()>)
        requires
            !(old(self).phase is Finished),
        ensures
            (*final(self), step) == old(self).next(input),
    {
        match self.phase {
            PutCharPhase::PollStatus => {
                self.phase = PutCharPhase::CheckStatus;
                Step::Io(Request::Read { offset: DW_APB_UART_LSR })
            },
            PutCharPhase::CheckStatus => {
                if DwApbUart::is_tx_fifo_full(input) {
                    self.phase = PutCharPhase::PollStatus;
                    Step::Io(Request::Spin)
                } else {
                    self.phase = PutCharPhase::Transmitted;
                    Step::Io(Request::Write { offset: DW_APB_UART_THR, value: self.byte as u32 })
                }
            },
            PutCharPhase::Transmitted => {
                self.phase = PutCharPhase::Finished;
                Step::Done(())
            },
            PutCharPhase::Finished => Step::Io(Request::Spin),
        }
    }
}

/// Where a byte reception stands.
#[derive(Clone, Copy, Debug, PartialEq, Eq, Structural)]
pub enum GetCharPhase {
    /// About to read the line status.
    PollStatus,
    /// The input is the line status just read.
    CheckStatus,
    /// The input is the receive buffer register just read.
    Received,
    /// The outcome has been reported.
    Finished,
}

/// Reception of at most one byte.
#[derive(Clone, Copy, Debug, PartialEq, Eq, Structural)]
pub struct GetChar {
    pub phase: GetCharPhase,
}

impl GetChar {
    /// The next state and step, given the value that answered the last request.
    pub open spec fn next(self, input: u32) -> (GetChar, Step<Option<u8>>) {
        match self.phase {
            GetCharPhase::PollStatus => (
                GetChar { phase: GetCharPhase::CheckStatus },
                Step::Io(Request::Read { offset: DW_APB_UART_LSR }),
            ),
            GetCharPhase::CheckStatus => if rx_fifo_empty(input) {
                (GetChar { phase: GetCharPhase::Finished }, Step::Done(None))
            } else {
                (GetChar { phase: GetCharPhase::Received }, Step::Io(Request::Read { offset: DW_APB_UART_RHR }))
            },
            GetCharPhase::Received => (GetChar { phase: GetCharPhase::Finished }, Step::Done(Some(received_byte(input)))),
            GetCharPhase::Finished => (self, Step::Io(Request::Spin)),
        }
    }

    /// Advance by one step; `input` is the value of the register read last
    /// asked for.
    pub fn resume(&mut self, input: u32) -> (step: Step<Option<u8>>)
        requires
            !(old(self).phase is Finished),
        ensures
            (*final(self), step) == old(self).next(input),
    {
        match self.phase {
            GetCharPhase::PollStatus => {
                self.phase = GetCharPhase::CheckStatus;
                Step::Io(Request::Read { offset: DW_APB_UART_LSR })
            },
            GetCharPhase::CheckStatus => {
                if DwApbUart::is_rx_fifo_empty(input) {
                    self.phase = GetCharPhase::Finished;
                    Step::Done(None)
                } else {
                    self.phase = GetCharPhase::Received;
                    Step::Io(Request::Read { offset: DW_APB_UART_RHR })
                }
            },
            GetCharPhase::Received => {
                self.phase = GetCharPhase::Finished;
                Step::Done(Some((input & 0xFF) as u8))
            },
            GetCharPhase::Finished => Step::Io(Request::Spin),
        }
    }
}

impl PutChar {
    /// The state reached and the steps taken when the machine is resumed
    /// with each of `inputs` in turn.
    pub open spec fn run(self, inputs: Seq<u32>) -> (PutChar, Seq<Step<()>>)
        decreases inputs.len(),
    {
        if inputs.len() == 0 {
            (self, Seq::empty())
        } else {
            let (t, step) = self.next(inputs[0]);
            let (u, steps) = t.run(inputs.drop_first());
            (u, seq![step] + steps)
        }
    }

    /// Over any run, the only register written is the transmit holding
    /// register, always with the byte to send (zero-extended), and only in
    /// answer to a line status whose transmitter-empty bit is set.
    pub proof fn lemma_run(self, inputs: Seq<u32>)
        ensures
            ({
                let (u, steps) = self.run(inputs);
                &&& steps.len() == inputs.len()
                &&& u.byte == self.byte
                &&& forall|k: int|
                    0 <= k < steps.len() && (#[trigger] written(steps[k])) is Some ==> {
                        &&& written(steps[k]) == Some((0usize, self.byte as u32))
                        &&& inputs[k] & 0x40 != 0
                    }
                &&& forall|k: int|
                    0 <= k < steps.len() && (#[trigger] read_from(steps[k])) is Some ==> read_from(
                        steps[k],
                    ) == Some(0x14usize)
            }),
        decreases inputs.len(),
    {
        if inputs.len() > 0 {
            let (t, step) = self.next(inputs[0]);
            t.lemma_run(inputs.drop_first());
            let (u, rest) = t.run(inputs.drop_first());
            let steps = seq![step] + rest;
            assert forall|k: int|
                0 <= k < steps.len() && (#[trigger] written(steps[k])) is Some implies {
                    &&& written(steps[k]) == Some((0usize, self.byte as u32))
                    &&& inputs[k] & 0x40 != 0
                } by {
                if k > 0 {
                    assert(steps[k] == rest[k - 1]);
                    assert(inputs.drop_first()[k - 1] == inputs[k]);
                }
            }
            assert forall|k: int|
                0 <= k < steps.len() && (#[trigger] read_from(steps[k])) is Some implies read_from(
                    steps[k],
                ) == Some(0x14usize) by {
                if k > 0 {
                    assert(steps[k] == rest[k - 1]);
                }
            }
        }
    }
}

/// `putc(c)` writes exactly `c`: whatever the line status reads, every
/// register write of the operation puts `c as u32` into the transmit holding
/// register (offset 0), and only in answer to a line status with the
/// transmitter-empty bit (bit 6) set; the only register read is the line
/// status (offset 0x14).
pub proof fn lemma_putc_sends_the_byte(c: u8, inputs: Seq<u32>)
    ensures
        ({
            let (_, steps) = (PutChar { byte: c, phase: PutCharPhase::PollStatus }).run(inputs);
            &&& forall|k: int|
                0 <= k < steps.len() && (#[trigger] written(steps[k])) is Some ==> {
                    &&& written(steps[k]) == Some((0usize, c as u32))
                    &&& inputs[k] & 0x40 != 0
                }
            &&& forall|k: int|
                0 <= k < steps.len() && (#[trigger] read_from(steps[k])) is Some ==> read_from(
                    steps[k],
                ) == Some(0x14usize)
        }),
{
    (PutChar { byte: c, phase: PutCharPhase::PollStatus }).lemma_run(inputs);
}

impl GetChar {
    /// The state reached and the steps taken when the machine is resumed
    /// with each of `inputs` in turn.
    pub open spec fn run(self, inputs: Seq<u32>) -> (GetChar, Seq<Step<Option<u8>>>)
        decreases inputs.len(),
    {
        if inputs.len() == 0 {
            (self, Seq::empty())
        } else {
            let (t, step) = self.next(inputs[0]);
            let (u, steps) = t.run(inputs.drop_first());
            (u, seq![step] + steps)
        }
    }

    /// Over any run: a received byte is the low eight bits of the receive
    /// buffer value just read, after a line status with data ready; "nothing
    /// received" answers a line status with data ready clear.
    pub proof fn lemma_run(self, inputs: Seq<u32>)
        ensures
            ({
                let (u, steps) = self.run(inputs);
                &&& steps.len() == inputs.len()
                &&& forall|k: int|
                    0 <= k < steps.len() && (#[trigger] reported(steps[k])) is Some ==> {
                        match reported(steps[k]).unwrap() {
                            Some(b) => {
                                &&& b as u32 == inputs[k] & 0xFF
                                &&& (k == 0 ==> self.phase is Received)
                                &&& (k > 0 ==> inputs[k - 1] & DW_APB_UART_LSR_DR != 0)
                            },
                            None => inputs[k] & DW_APB_UART_LSR_DR == 0,
                        }
                    }
                &&& forall|k: int|
                    0 <= k < steps.len() && (#[trigger] read_from(steps[k])) is Some ==> {
                        ||| read_from(steps[k]) == Some(0x14usize)
                        ||| read_from(steps[k]) == Some(0usize) && inputs[k] & 1 != 0
                    }
            }),
        decreases inputs.len(),
    {
        if inputs.len() > 0 {
            let (t, step) = self.next(inputs[0]);
            t.lemma_run(inputs.drop_first());
            let (u, rest) = t.run(inputs.drop_first());
            let steps = seq![step] + rest;
            let x = inputs[0];
            assert(((x & 0xFF) as u8) as u32 == x & 0xFF) by (bit_vector);
            assert forall|k: int|
                0 <= k < steps.len() && (#[trigger] reported(steps[k])) is Some implies {
                    match reported(steps[k]).unwrap() {
                        Some(b) => {
                            &&& b as u32 == inputs[k] & 0xFF
                            &&& (k == 0 ==> self.phase is Received)
                            &&& (k > 0 ==> inputs[k - 1] & DW_APB_UART_LSR_DR != 0)
                        },
                        None => inputs[k] & DW_APB_UART_LSR_DR == 0,
                    }
                } by {
                if k > 0 {
                    assert(steps[k] == rest[k - 1]);
                    assert(inputs.drop_first()[k - 1] == inputs[k]);
                    if k > 1 {
                        assert(inputs.drop_first()[k - 2] == inputs[k - 1]);
                    }
                }
            }
            assert forall|k: int|
                0 <= k < steps.len() && (#[trigger] read_from(steps[k])) is Some implies {
                    ||| read_from(steps[k]) == Some(0x14usize)
                    ||| read_from(steps[k]) == Some(0usize) && inputs[k] & 1 != 0
                } by {
                if k > 0 {
                    assert(steps[k] == rest[k - 1]);
                    assert(inputs.drop_first()[k - 1] == inputs[k]);
                }
            }
        }
    }
}

/// `getc()` hands back exactly the received byte: whenever it reports a byte,
/// data was ready and the byte is the low eight bits of the receive buffer
/// value read last; it reports "nothing" only when data ready was clear. It
/// reads only the line status (offset 0x14) and, after a line status with
/// data ready (bit 0), the receive buffer (offset 0).
pub proof fn lemma_getc_returns_the_byte(inputs: Seq<u32>)
    ensures
        ({
            let (_, steps) = (GetChar { phase: GetCharPhase::PollStatus }).run(inputs);
            &&& forall|k: int|
                0 <= k < steps.len() && (#[trigger] reported(steps[k])) is Some ==> {
                    match reported(steps[k]).unwrap() {
                        Some(b) => {
                            &&& b as u32 == inputs[k] & 0xFF
                            &&& k > 0
                            &&& inputs[k - 1] & 1 != 0
                        },
                        None => inputs[k] & 1 == 0,
                    }
                }
            &&& forall|k: int|
                0 <= k < steps.len() && (#[trigger] read_from(steps[k])) is Some ==> {
                    ||| read_from(steps[k]) == Some(0x14usize)
                    ||| read_from(steps[k]) == Some(0usize) && inputs[k] & 1 != 0
                }
        }),
{
    (GetChar { phase: GetCharPhase::PollStatus }).lemma_run(inputs);
}

} // verus!
