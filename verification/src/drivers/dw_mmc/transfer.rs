//! A synchronous block transfer through the controller's FIFO.
use vstd::prelude::*;
use crate::mmio::{written, Request, Step};
use super::command::{AckPhase, AcknowledgedCommand, CommandExchange, ExchangePhase};
use super::{
    DWMMC_BLOCK_SIZE, DWMMC_BLOCK_SIZE_BYTES, DWMMC_CMD, DWMMC_CMD_ARG, DWMMC_BUS_MODE, DWMMC_BUS_MODE_IDMAC_ENABLE,
    DWMMC_BUS_MODE_IDMAC_FIXED_BURST, DWMMC_BYTE_COUNT, DWMMC_CMD_DATA_EXPECTED, DWMMC_CMD_RESPONSE_CRC,
    DWMMC_CMD_RESPONSE_EXPECTED, DWMMC_CMD_START, DWMMC_CMD_STOP_ABORT, DWMMC_CMD_USE_HOLD_REGISTER,
    DWMMC_CMD_WAIT_PREVIOUS_DATA, DWMMC_CMD_WRITE, DWMMC_CONTROL, DWMMC_CONTROL_RESET_FIFO,
    DWMMC_FIFO_THRESHOLD, DWMMC_FIFO_THRESHOLD_MSIZE_OFFSET,
    DWMMC_FIFO_THRESHOLD_RX_WATERMARK_OFFSET, DWMMC_FIFO_THRESHOLD_TX_WATERMARK_OFFSET,
    DWMMC_INTERRUPT_MASK_DATA_TRANSFER_OVER, DWMMC_INTERRUPT_MASK_END_BIT_ERROR,
    DWMMC_INTERRUPT_MASK_RECEIVE_DATA, DWMMC_INTERRUPT_MASK_RESPONSE_TIME_OUT,
    DWMMC_INTERRUPT_MASK_START_BIT_ERROR, DWMMC_INTERRUPT_MASK_TRANSMIT_DATA,
    DWMMC_RAW_INTERRUPT_STATUS, DWMMC_RESPONSE, DWMMC_STATUS, DWMMC_STATUS_FIFO_EMPTY,
    DWMMC_STATUS_FIFO_FULL, MMC_CMD_READ_MULTIPLE_BLOCK, MMC_CMD_READ_SINGLE_BLOCK,
    MMC_CMD_SET_BLOCK_LENGTH, MMC_CMD_STOP_TRANSMISSION, MMC_CMD_WRITE_MULTIPLE_BLOCK,
    MMC_CMD_WRITE_SINGLE_BLOCK,
};

verus! {

/// The command word that sets the card's block length.
pub open spec fn set_block_length_command() -> u32 {
    DWMMC_CMD_START | DWMMC_CMD_USE_HOLD_REGISTER | DWMMC_CMD_WAIT_PREVIOUS_DATA
        | DWMMC_CMD_RESPONSE_CRC | DWMMC_CMD_RESPONSE_EXPECTED | MMC_CMD_SET_BLOCK_LENGTH
}

/// The command word that stops a multiple-block transmission.
pub open spec fn stop_transmission_command() -> u32 {
    DWMMC_CMD_START | DWMMC_CMD_USE_HOLD_REGISTER | DWMMC_CMD_STOP_ABORT | DWMMC_CMD_RESPONSE_CRC
        | DWMMC_CMD_RESPONSE_EXPECTED | MMC_CMD_STOP_TRANSMISSION
}

/// The attributes every data command carries.
pub open spec fn data_command_attributes() -> u32 {
    DWMMC_CMD_START | DWMMC_CMD_USE_HOLD_REGISTER | DWMMC_CMD_WAIT_PREVIOUS_DATA
        | DWMMC_CMD_DATA_EXPECTED | DWMMC_CMD_RESPONSE_CRC | DWMMC_CMD_RESPONSE_EXPECTED
}

/// The command word of a data transfer: single-block or multiple-block
/// read or write opcode, and the write attribute for writes.
pub open spec fn data_command(is_write: bool, single_block: bool) -> u32 {
    if is_write {
        (data_command_attributes() | if single_block {
            MMC_CMD_WRITE_SINGLE_BLOCK
        } else {
            MMC_CMD_WRITE_MULTIPLE_BLOCK
        }) | DWMMC_CMD_WRITE
    } else {
        data_command_attributes() | if single_block {
            MMC_CMD_READ_SINGLE_BLOCK
        } else {
            MMC_CMD_READ_MULTIPLE_BLOCK
        }
    }
}

/// The FIFO threshold register value for a FIFO of `fifo_depth` words:
/// burst size field 2, receive watermark half the depth less one, transmit
/// watermark half the depth. Meaningful for a depth of at least two.
pub open spec fn fifo_threshold(fifo_depth: u32) -> u32 {
    (2u32 << DWMMC_FIFO_THRESHOLD_MSIZE_OFFSET)
        | (((fifo_depth / 2 - 1) as u32) << DWMMC_FIFO_THRESHOLD_RX_WATERMARK_OFFSET)
        | ((fifo_depth / 2) << DWMMC_FIFO_THRESHOLD_TX_WATERMARK_OFFSET)
}

/// The interrupts that report received data.
pub open spec fn receive_mask() -> u32 {
    DWMMC_INTERRUPT_MASK_RECEIVE_DATA | DWMMC_INTERRUPT_MASK_DATA_TRANSFER_OVER
}

/// Whether a raw interrupt status reports a start-bit or end-bit error.
pub open spec fn data_error(status: u32) -> bool {
    status & (DWMMC_INTERRUPT_MASK_START_BIT_ERROR | DWMMC_INTERRUPT_MASK_END_BIT_ERROR) != 0
}

/// Whether a failed command may be sent again: it timed out.
pub open spec fn retryable(status: u32) -> bool {
    status & DWMMC_INTERRUPT_MASK_RESPONSE_TIME_OUT != 0
}

/// Whether a status register value lets the data move: for a write, the
/// FIFO is not full or not empty; for a read, it is not empty.
pub open spec fn fifo_ready(is_write: bool, status: u32) -> bool {
    (is_write && status & DWMMC_STATUS_FIFO_FULL == 0) || status & DWMMC_STATUS_FIFO_EMPTY == 0
}

/// The FIFO fill level, bits 17 to 29 of the status register.
pub open spec fn fifo_count(status: u32) -> u32 {
    (status >> 17u32) & 0x1FFF
}

/// How many words may move in one burst: the fill level for a read, the
/// free room for a write.
pub open spec fn burst_size(is_write: bool, fifo_depth: u32, status: u32) -> u32 {
    if is_write {
        (fifo_depth - fifo_count(status)) as u32
    } else {
        fifo_count(status)
    }
}

/// The data command carries every data command attribute, the write
/// attribute exactly for writes, and in its low six bits the opcode: a
/// single-block opcode for one block, a multiple-block one otherwise.
pub proof fn lemma_data_command_fields(is_write: bool, single_block: bool)
    ensures
        data_command(is_write, single_block) & data_command_attributes() == data_command_attributes(),
        (data_command(is_write, single_block) & DWMMC_CMD_WRITE != 0) == is_write,
        data_command(is_write, single_block) & 0x3F == if is_write {
            if single_block {
                MMC_CMD_WRITE_SINGLE_BLOCK
            } else {
                MMC_CMD_WRITE_MULTIPLE_BLOCK
            }
        } else {
            if single_block {
                MMC_CMD_READ_SINGLE_BLOCK
            } else {
                MMC_CMD_READ_MULTIPLE_BLOCK
            }
        },
{
    let a = data_command_attributes();
    assert(a == 0x8000_0000u32 | 0x2000_0000 | 0x2000 | 0x200 | 0x100 | 0x40);
    assert(a == 0xA000_2340) by (bit_vector)
        requires a == 0x8000_0000u32 | 0x2000_0000 | 0x2000 | 0x200 | 0x100 | 0x40;
    let rs = data_command(false, true);
    let rm = data_command(false, false);
    let ws = data_command(true, true);
    let wm = data_command(true, false);
    assert(rs == 0xA000_2340u32 | 17);
    assert(rm == 0xA000_2340u32 | 18);
    assert(ws == (0xA000_2340u32 | 24) | 0x400);
    assert(wm == (0xA000_2340u32 | 25) | 0x400);
    assert(rs & 0xA000_2340 == 0xA000_2340 && rs & 0x400 == 0 && rs & 0x3F == 17) by (bit_vector)
        requires rs == 0xA000_2340u32 | 17;
    assert(rm & 0xA000_2340 == 0xA000_2340 && rm & 0x400 == 0 && rm & 0x3F == 18) by (bit_vector)
        requires rm == 0xA000_2340u32 | 18;
    assert(ws & 0xA000_2340 == 0xA000_2340 && ws & 0x400 != 0 && ws & 0x3F == 24) by (bit_vector)
        requires ws == (0xA000_2340u32 | 24) | 0x400;
    assert(wm & 0xA000_2340 == 0xA000_2340 && wm & 0x400 != 0 && wm & 0x3F == 25) by (bit_vector)
        requires wm == (0xA000_2340u32 | 25) | 0x400;
}

/// For a FIFO of 2 to 8191 words the threshold register holds its three
/// fields apart: burst size 2 at bit 28, receive watermark half the depth
/// less one at bit 16, transmit watermark half the depth at bit 0.
pub proof fn lemma_fifo_threshold_fields(fifo_depth: u32)
    requires
        2 <= fifo_depth < 0x2000,
    ensures
        fifo_threshold(fifo_depth) >> 28u32 == 2,
        (fifo_threshold(fifo_depth) >> 16u32) & 0xFFF == fifo_depth / 2 - 1,
        fifo_threshold(fifo_depth) & 0xFFF == fifo_depth / 2,
{
    let t = fifo_threshold(fifo_depth);
    let h = fifo_depth / 2;
    let r = (fifo_depth / 2 - 1) as u32;
    assert(t == (2u32 << 28usize) | (r << 16usize) | (h << 0usize));
    assert(t >> 28u32 == 2 && (t >> 16u32) & 0xFFF == r && t & 0xFFF == h) by (bit_vector)
        requires
            t == (2u32 << 28usize) | (r << 16usize) | (h << 0usize),
            1 <= h < 0x1000,
            r == h - 1;
}

/// Where a transfer stands.
#[derive(Clone, Copy, Debug, PartialEq, Eq, Structural)]
pub enum TransferPhase {
    /// Setting the block length to 512 bytes.
    SetBlockLength,
    /// The block size register comes next.
    SetBlockSize,
    /// The byte count register comes next.
    SetByteCount,
    /// The FIFO threshold register comes next.
    SetFifoThreshold,
    /// The FIFO reset comes next.
    ResetFifo,
    /// About to read the control register.
    PollFifoReset,
    /// The input is the control register just read.
    CheckFifoReset,
    /// The input is the bus mode register just read.
    SetBusMode,
    /// The barrier before the data command comes next.
    CommandBarrier,
    /// The data command exchange is running.
    DataCommand,
    /// The response has been read (and is discarded); a cache flush comes next.
    DataFlush,
    /// At the head of the data loop.
    DataLoop,
    /// The input is the raw interrupt status just read.
    CheckInterrupt,
    /// About to read the status register.
    PollFifo,
    /// The input is the status register just read.
    CheckFifo,
    /// Moving a burst of words.
    Burst,
    /// The stop transmission command is running.
    StopTransmission,
    /// The final cache flush has been asked for.
    Complete,
    /// The outcome has been reported.
    Finished,
}

/// The order in which a transfer passes through its phases.
pub open spec fn stage(phase: TransferPhase) -> nat {
    match phase {
        TransferPhase::SetBlockLength => 0,
        TransferPhase::SetBlockSize => 1,
        TransferPhase::SetByteCount => 2,
        TransferPhase::SetFifoThreshold => 3,
        TransferPhase::ResetFifo => 4,
        TransferPhase::PollFifoReset => 5,
        TransferPhase::CheckFifoReset => 6,
        TransferPhase::SetBusMode => 7,
        TransferPhase::CommandBarrier => 8,
        TransferPhase::DataCommand => 9,
        TransferPhase::DataFlush => 10,
        TransferPhase::DataLoop => 11,
        TransferPhase::CheckInterrupt => 12,
        TransferPhase::PollFifo => 13,
        TransferPhase::CheckFifo => 14,
        TransferPhase::Burst => 15,
        TransferPhase::StopTransmission => 16,
        TransferPhase::Complete => 17,
        TransferPhase::Finished => 18,
    }
}

/// A synchronous read or write of `length` bytes at byte address
/// `block_address` of the card, through the controller's FIFO, one 32-bit
/// word of the buffer at `buffer_address` at a time.
#[derive(Clone, Copy, Debug, PartialEq, Eq, Structural)]
pub struct Transfer {
    pub buffer_address: usize,
    pub length: u64,
    pub is_write: bool,
    pub fifo_depth: u32,
    /// The data command word.
    pub command: u32,
    /// The data command's argument: the block number.
    pub argument: u32,
    /// Whether a stop transmission command follows the data (multiple blocks).
    pub stop_after: bool,
    /// The number of 32-bit words in the buffer.
    pub words: u64,
    /// The index of the next buffer word to move.
    pub pointer: u64,
    /// How many more times a timed-out data command may be sent again.
    pub retries_left: u32,
    /// How many more words the current burst may move.
    pub burst_left: u32,
    pub block_length: AcknowledgedCommand,
    pub data_command: CommandExchange,
    pub stop: AcknowledgedCommand,
    pub phase: TransferPhase,
}

impl Transfer {
    /// A transfer that has not started.
    pub open spec fn initial(
        fifo_depth: u32,
        buffer_address: usize,
        block_address: u64,
        length: u64,
        is_write: bool,
    ) -> Transfer {
        let command = data_command(is_write, length == 512);
        let argument = (block_address / 512) as u32;
        Transfer {
            buffer_address,
            length,
            is_write,
            fifo_depth,
            command,
            argument,
            stop_after: length != 512,
            words: length / 4,
            pointer: 0,
            retries_left: 3,
            burst_left: 0,
            block_length: AcknowledgedCommand::initial(set_block_length_command(), 512),
            data_command: CommandExchange::initial(command, argument),
            stop: AcknowledgedCommand::initial(stop_transmission_command(), 0),
            phase: TransferPhase::SetBlockLength,
        }
    }

    /// What holds of every state a transfer passes through.
    pub open spec fn wf(self) -> bool {
        &&& self.words == self.length / 4
        &&& self.pointer <= self.words
        &&& self.retries_left <= 3
        &&& self.command == data_command(self.is_write, self.length == 512)
        &&& self.stop_after == (self.length != 512)
        &&& self.data_command.command == self.command
        &&& self.data_command.argument == self.argument
        &&& self.stop.exchange.command == stop_transmission_command()
        &&& self.stop.exchange.argument == 0
        &&& self.block_length.exchange.command == set_block_length_command()
        &&& self.block_length.exchange.argument == 512
        &&& (self.phase is SetBlockLength ==> self.block_length.active())
        &&& (stage(self.phase) <= stage(TransferPhase::CommandBarrier)
            ==> self.data_command.phase is PollIdle)
        &&& (self.phase is DataCommand ==> !(self.data_command.phase is Finished))
        &&& (stage(self.phase) < stage(TransferPhase::StopTransmission) || !self.stop_after
            ==> self.stop == AcknowledgedCommand::initial(stop_transmission_command(), 0))
        &&& (self.phase is CheckInterrupt || self.phase is PollFifo || self.phase is CheckFifo
            ==> self.pointer < self.words)
        &&& (self.phase is Burst ==> self.burst_left == 0 || self.pointer < self.words)
        &&& (self.phase is StopTransmission ==> {
            &&& self.stop_after
            &&& self.pointer == self.words
            &&& self.stop.active()
        })
        &&& (self.phase is Complete ==> {
            &&& self.pointer == self.words
            &&& (self.stop_after ==> self.stop.phase is Succeeded)
        })
    }

    /// Whether the next step would overflow an unsigned subtraction: the
    /// FIFO threshold of a FIFO shallower than two words, or the free room of
    /// a FIFO whose reported fill level exceeds its depth.
    pub open spec fn overflows(self, input: u32) -> bool {
        ||| self.phase is SetFifoThreshold && self.fifo_depth < 2
        ||| self.phase is CheckFifo && self.is_write && fifo_ready(true, input)
            && fifo_count(input) > self.fifo_depth
    }

    /// The head of the data loop: poll the raw interrupt status while words
    /// remain; then stop the transmission if there were several blocks, or
    /// flush the data cache and finish.
    pub open spec fn loop_head(self) -> (Transfer, Step<Result<(), ()>>) {
        if self.pointer < self.words {
            (
                Transfer { phase: TransferPhase::CheckInterrupt, ..self },
                Step::Io(Request::Read { offset: DWMMC_RAW_INTERRUPT_STATUS }),
            )
        } else if self.stop_after {
            let (stop, step) = self.stop.next(0);
            (Transfer { stop, phase: TransferPhase::StopTransmission, ..self }, step)
        } else {
            (Transfer { phase: TransferPhase::Complete, ..self }, Step::Io(Request::FlushDataCache))
        }
    }

    /// The request that moves buffer word `index`.
    pub open spec fn word_request(self, index: u64) -> Request {
        if self.is_write {
            Request::WriteWord { index }
        } else {
            Request::ReadWord { index }
        }
    }

    /// The next state and step, given the value that answered the last request.
    pub open spec fn next(self, input: u32) -> (Transfer, Step<Result<(), ()>>) {
        match self.phase {
            TransferPhase::SetBlockLength => {
                let (block_length, step) = self.block_length.next(input);
                match step {
                    Step::Io(request) => (Transfer { block_length, ..self }, Step::Io(request)),
                    Step::Done(Ok(())) => (
                        Transfer { block_length, phase: TransferPhase::SetBlockSize, ..self },
                        Step::Io(Request::DataBarrier),
                    ),
                    Step::Done(Err(())) => (
                        Transfer { block_length, phase: TransferPhase::Finished, ..self },
                        Step::Done(Err(())),
                    ),
                }
            },
            TransferPhase::SetBlockSize => (
                Transfer { phase: TransferPhase::SetByteCount, ..self },
                Step::Io(Request::Write { offset: DWMMC_BLOCK_SIZE, value: 512 }),
            ),
            TransferPhase::SetByteCount => (
                Transfer { phase: TransferPhase::SetFifoThreshold, ..self },
                Step::Io(Request::Write { offset: DWMMC_BYTE_COUNT, value: self.length as u32 }),
            ),
            TransferPhase::SetFifoThreshold => (
                Transfer { phase: TransferPhase::ResetFifo, ..self },
                Step::Io(
                    Request::Write { offset: DWMMC_FIFO_THRESHOLD, value: fifo_threshold(self.fifo_depth) },
                ),
            ),
            TransferPhase::ResetFifo => (
                Transfer { phase: TransferPhase::PollFifoReset, ..self },
                Step::Io(Request::Write { offset: DWMMC_CONTROL, value: DWMMC_CONTROL_RESET_FIFO }),
            ),
            TransferPhase::PollFifoReset => (
                Transfer { phase: TransferPhase::CheckFifoReset, ..self },
                Step::Io(Request::Read { offset: DWMMC_CONTROL }),
            ),
            TransferPhase::CheckFifoReset => if input & DWMMC_CONTROL_RESET_FIFO != 0 {
                (Transfer { phase: TransferPhase::PollFifoReset, ..self }, Step::Io(Request::Spin))
            } else {
                (
                    Transfer { phase: TransferPhase::SetBusMode, ..self },
                    Step::Io(Request::Read { offset: DWMMC_BUS_MODE }),
                )
            },
            TransferPhase::SetBusMode => (
                Transfer { phase: TransferPhase::CommandBarrier, ..self },
                Step::Io(
                    Request::Write {
                        offset: DWMMC_BUS_MODE,
                        value: input | (DWMMC_BUS_MODE_IDMAC_FIXED_BURST & !DWMMC_BUS_MODE_IDMAC_ENABLE),
                    },
                ),
            ),
            TransferPhase::CommandBarrier => (
                Transfer { phase: TransferPhase::DataCommand, ..self },
                Step::Io(Request::DataBarrier),
            ),
            TransferPhase::DataCommand => {
                let (data_command, step) = self.data_command.next(input);
                match step {
                    Step::Io(request) => (Transfer { data_command, ..self }, Step::Io(request)),
                    Step::Done(Ok(_)) => (
                        Transfer { data_command, phase: TransferPhase::DataFlush, ..self },
                        Step::Io(Request::Read { offset: DWMMC_RESPONSE }),
                    ),
                    Step::Done(Err(status)) => if retryable(status) && self.retries_left > 0 {
                        (
                            Transfer {
                                data_command: CommandExchange::initial(self.command, self.argument),
                                retries_left: (self.retries_left - 1) as u32,
                                ..self
                            },
                            Step::Io(Request::Write { offset: DWMMC_RAW_INTERRUPT_STATUS, value: status }),
                        )
                    } else {
                        (
                            Transfer { data_command, phase: TransferPhase::Finished, ..self },
                            Step::Done(Err(())),
                        )
                    },
                }
            },
            TransferPhase::DataFlush => (
                Transfer { phase: TransferPhase::DataLoop, ..self },
                Step::Io(Request::FlushDataCache),
            ),
            TransferPhase::DataLoop => self.loop_head(),
            TransferPhase::CheckInterrupt => if data_error(input) {
                (Transfer { phase: TransferPhase::Finished, ..self }, Step::Done(Err(())))
            } else if self.is_write {
                if input & DWMMC_INTERRUPT_MASK_TRANSMIT_DATA == 0 {
                    (self, Step::Io(Request::Read { offset: DWMMC_RAW_INTERRUPT_STATUS }))
                } else {
                    (
                        Transfer { phase: TransferPhase::CheckFifo, ..self },
                        Step::Io(Request::Read { offset: DWMMC_STATUS }),
                    )
                }
            } else if input & receive_mask() == 0 {
                (self, Step::Io(Request::Read { offset: DWMMC_RAW_INTERRUPT_STATUS }))
            } else {
                (
                    Transfer { phase: TransferPhase::PollFifo, ..self },
                    Step::Io(
                        Request::Write { offset: DWMMC_RAW_INTERRUPT_STATUS, value: input & receive_mask() },
                    ),
                )
            },
            TransferPhase::PollFifo => (
                Transfer { phase: TransferPhase::CheckFifo, ..self },
                Step::Io(Request::Read { offset: DWMMC_STATUS }),
            ),
            TransferPhase::CheckFifo => if fifo_ready(self.is_write, input) {
                (
                    Transfer {
                        burst_left: burst_size(self.is_write, self.fifo_depth, input),
                        phase: TransferPhase::Burst,
                        ..self
                    },
                    Step::Io(Request::DataBarrier),
                )
            } else {
                (Transfer { phase: TransferPhase::PollFifo, ..self }, Step::Io(Request::Spin))
            },
            TransferPhase::Burst => if self.burst_left == 0 {
                if self.is_write {
                    (
                        Transfer { phase: TransferPhase::DataLoop, ..self },
                        Step::Io(
                            Request::Write {
                                offset: DWMMC_RAW_INTERRUPT_STATUS,
                                value: DWMMC_INTERRUPT_MASK_TRANSMIT_DATA,
                            },
                        ),
                    )
                } else {
                    self.loop_head()
                }
            } else {
                let pointer = (self.pointer + 1) as u64;
                (
                    Transfer {
                        pointer,
                        burst_left: if pointer == self.words {
                            0
                        } else {
                            (self.burst_left - 1) as u32
                        },
                        ..self
                    },
                    Step::Io(self.word_request(self.pointer)),
                )
            },
            TransferPhase::StopTransmission => {
                let (stop, step) = self.stop.next(input);
                match step {
                    Step::Io(request) => (Transfer { stop, ..self }, Step::Io(request)),
                    Step::Done(Ok(())) => (
                        Transfer { stop, phase: TransferPhase::Complete, ..self },
                        Step::Io(Request::FlushDataCache),
                    ),
                    Step::Done(Err(())) => (
                        Transfer { stop, phase: TransferPhase::Finished, ..self },
                        Step::Done(Err(())),
                    ),
                }
            },
            TransferPhase::Complete => (
                Transfer { phase: TransferPhase::Finished, ..self },
                Step::Done(Ok(())),
            ),
            TransferPhase::Finished => (self, Step::Io(Request::Spin)),
        }
    }
}


impl Transfer {
    /// The parts of a transfer that no step changes.
    pub open spec fn same_job(self, other: Transfer) -> bool {
        &&& other.buffer_address == self.buffer_address
        &&& other.length == self.length
        &&& other.is_write == self.is_write
        &&& other.fifo_depth == self.fifo_depth
        &&& other.command == self.command
        &&& other.argument == self.argument
        &&& other.stop_after == self.stop_after
        &&& other.words == self.words
    }

    /// Every step keeps the invariant, moves buffer words strictly in order
    /// and only inside the buffer, never gives back a retry, and reports
    /// success only once every word has moved and, for several blocks, the
    /// transmission has been stopped.
    pub proof fn lemma_next(self, input: u32)
        requires
            self.wf(),
        ensures
            ({
                let (t, step) = self.next(input);
                &&& t.wf()
                &&& self.same_job(t)
                &&& self.pointer <= t.pointer
                &&& t.retries_left <= self.retries_left
                &&& (t.retries_left != self.retries_left ==> {
                    &&& self.phase is DataCommand
                    &&& self.data_command.next(input).1 matches Step::Done(Err(status))
                        && retryable(status)
                        && step == Step::<Result<(), ()>>::Io(
                        Request::Write { offset: DWMMC_RAW_INTERRUPT_STATUS, value: status },
                    )
                    &&& t.retries_left == self.retries_left - 1
                    &&& t.data_command == CommandExchange::initial(self.command, self.argument)
                })
                &&& (t.pointer != self.pointer ==> {
                    &&& t.pointer == self.pointer + 1
                    &&& step == Step::<Result<(), ()>>::Io(self.word_request(self.pointer))
                })
                &&& (step matches Step::Io(Request::ReadWord { index }) ==> {
                    &&& !self.is_write
                    &&& index == self.pointer
                    &&& index < self.words
                    &&& t.pointer == index + 1
                })
                &&& (step matches Step::Io(Request::WriteWord { index }) ==> {
                    &&& self.is_write
                    &&& index == self.pointer
                    &&& index < self.words
                    &&& t.pointer == index + 1
                })
                &&& (step == Step::<Result<(), ()>>::Done(Ok(())) ==> {
                    &&& t.pointer == t.words
                    &&& (t.stop_after ==> t.stop.phase is Succeeded)
                })
            }),
    {
    }
}


impl Transfer {
    /// Whether resuming with `input` would overflow an unsigned subtraction
    /// (see `overflows`).
    pub fn would_overflow(&self, input: u32) -> (r: bool)
        ensures
            r == self.overflows(input),
    {
        match self.phase {
            TransferPhase::SetFifoThreshold => self.fifo_depth < 2,
            TransferPhase::CheckFifo => {
                self.is_write && ((input & DWMMC_STATUS_FIFO_FULL) == 0 || (input
                    & DWMMC_STATUS_FIFO_EMPTY) == 0) && ((input >> 17u32) & 0x1FFF) > self.fifo_depth
            },
            _ => false,
        }
    }

    fn loop_head_exec(&mut self) -> (step: Step<Result<(), ()>>)
        requires
            old(self).wf(),
            stage(old(self).phase) < stage(TransferPhase::StopTransmission),
        ensures
            (*final(self), step) == old(self).loop_head(),
    {
        if self.pointer < self.words {
            self.phase = TransferPhase::CheckInterrupt;
            Step::Io(Request::Read { offset: DWMMC_RAW_INTERRUPT_STATUS })
        } else if self.stop_after {
            self.phase = TransferPhase::StopTransmission;
            self.stop.resume(0)
        } else {
            self.phase = TransferPhase::Complete;
            Step::Io(Request::FlushDataCache)
        }
    }

    /// Advance by one step; `input` is the value of the register read last
    /// asked for, and is ignored after any other request.
    ///
    /// Buffer words move strictly in order, each inside the buffer, and
    /// success is reported only once all of them have moved.
    pub fn resume(&mut self, input: u32) -> (step: Step<Result<(), ()>>)
        requires
            old(self).wf(),
            !(old(self).phase is Finished),
            !old(self).overflows(input),
        ensures
            (*final(self), step) == old(self).next(input),
            final(self).wf(),
            old(self).same_job(*final(self)),
            step matches Step::Io(Request::ReadWord { index }) ==> {
                &&& !old(self).is_write
                &&& index == old(self).pointer
                &&& index < old(self).words
                &&& final(self).pointer == index + 1
            },
            step matches Step::Io(Request::WriteWord { index }) ==> {
                &&& old(self).is_write
                &&& index == old(self).pointer
                &&& index < old(self).words
                &&& final(self).pointer == index + 1
            },
            final(self).pointer != old(self).pointer ==> step == Step::<Result<(), ()>>::Io(
                old(self).word_request(old(self).pointer),
            ),
            old(self).pointer <= final(self).pointer,
            final(self).retries_left <= old(self).retries_left,
            step == Step::<Result<(), ()>>::Done(Ok(())) ==> {
                &&& final(self).pointer == final(self).words
                &&& (final(self).stop_after ==> final(self).stop.phase is Succeeded)
            },
    {
        proof {
            old(self).lemma_next(input);
        }
        match self.phase {
            TransferPhase::SetBlockLength => {
                match self.block_length.resume(input) {
                    Step::Io(request) => Step::Io(request),
                    Step::Done(Ok(())) => {
                        self.phase = TransferPhase::SetBlockSize;
                        Step::Io(Request::DataBarrier)
                    },
                    Step::Done(Err(())) => {
                        self.phase = TransferPhase::Finished;
                        Step::Done(Err(()))
                    },
                }
            },
            TransferPhase::SetBlockSize => {
                self.phase = TransferPhase::SetByteCount;
                Step::Io(Request::Write { offset: DWMMC_BLOCK_SIZE, value: 512 })
            },
            TransferPhase::SetByteCount => {
                self.phase = TransferPhase::SetFifoThreshold;
                Step::Io(Request::Write { offset: DWMMC_BYTE_COUNT, value: self.length as u32 })
            },
            TransferPhase::SetFifoThreshold => {
                let fifo_threshold = (2u32 << DWMMC_FIFO_THRESHOLD_MSIZE_OFFSET) | ((self.fifo_depth
                    / 2 - 1) << DWMMC_FIFO_THRESHOLD_RX_WATERMARK_OFFSET) | ((self.fifo_depth / 2)
                    << DWMMC_FIFO_THRESHOLD_TX_WATERMARK_OFFSET);
                self.phase = TransferPhase::ResetFifo;
                Step::Io(Request::Write { offset: DWMMC_FIFO_THRESHOLD, value: fifo_threshold })
            },
            TransferPhase::ResetFifo => {
                self.phase = TransferPhase::PollFifoReset;
                Step::Io(Request::Write { offset: DWMMC_CONTROL, value: DWMMC_CONTROL_RESET_FIFO })
            },
            TransferPhase::PollFifoReset => {
                self.phase = TransferPhase::CheckFifoReset;
                Step::Io(Request::Read { offset: DWMMC_CONTROL })
            },
            TransferPhase::CheckFifoReset => {
                if (input & DWMMC_CONTROL_RESET_FIFO) != 0 {
                    self.phase = TransferPhase::PollFifoReset;
                    Step::Io(Request::Spin)
                } else {
                    self.phase = TransferPhase::SetBusMode;
                    Step::Io(Request::Read { offset: DWMMC_BUS_MODE })
                }
            },
            TransferPhase::SetBusMode => {
                self.phase = TransferPhase::CommandBarrier;
                Step::Io(
                    Request::Write {
                        offset: DWMMC_BUS_MODE,
                        value: input | DWMMC_BUS_MODE_IDMAC_FIXED_BURST & !DWMMC_BUS_MODE_IDMAC_ENABLE,
                    },
                )
            },
            TransferPhase::CommandBarrier => {
                self.phase = TransferPhase::DataCommand;
                Step::Io(Request::DataBarrier)
            },
            TransferPhase::DataCommand => {
                match self.data_command.resume(input) {
                    Step::Io(request) => Step::Io(request),
                    Step::Done(Ok(_)) => {
                        self.phase = TransferPhase::DataFlush;
                        Step::Io(Request::Read { offset: DWMMC_RESPONSE })
                    },
                    Step::Done(Err(status)) => {
                        if (status & DWMMC_INTERRUPT_MASK_RESPONSE_TIME_OUT) != 0 && self.retries_left
                            > 0 {
                            self.data_command = CommandExchange {
                                command: self.command,
                                argument: self.argument,
                                phase: ExchangePhase::PollIdle,
                            };
                            self.retries_left = self.retries_left - 1;
                            Step::Io(Request::Write { offset: DWMMC_RAW_INTERRUPT_STATUS, value: status })
                        } else {
                            self.phase = TransferPhase::Finished;
                            Step::Done(Err(()))
                        }
                    },
                }
            },
            TransferPhase::DataFlush => {
                self.phase = TransferPhase::DataLoop;
                Step::Io(Request::FlushDataCache)
            },
            TransferPhase::DataLoop => self.loop_head_exec(),
            TransferPhase::CheckInterrupt => {
                if (input & (DWMMC_INTERRUPT_MASK_START_BIT_ERROR | DWMMC_INTERRUPT_MASK_END_BIT_ERROR))
                    != 0 {
                    self.phase = TransferPhase::Finished;
                    Step::Done(Err(()))
                } else if self.is_write {
                    if (input & DWMMC_INTERRUPT_MASK_TRANSMIT_DATA) == 0 {
                        Step::Io(Request::Read { offset: DWMMC_RAW_INTERRUPT_STATUS })
                    } else {
                        self.phase = TransferPhase::CheckFifo;
                        Step::Io(Request::Read { offset: DWMMC_STATUS })
                    }
                } else {
                    let mask = DWMMC_INTERRUPT_MASK_RECEIVE_DATA
                        | DWMMC_INTERRUPT_MASK_DATA_TRANSFER_OVER;
                    if (input & mask) == 0 {
                        Step::Io(Request::Read { offset: DWMMC_RAW_INTERRUPT_STATUS })
                    } else {
                        self.phase = TransferPhase::PollFifo;
                        Step::Io(Request::Write { offset: DWMMC_RAW_INTERRUPT_STATUS, value: input & mask })
                    }
                }
            },
            TransferPhase::PollFifo => {
                self.phase = TransferPhase::CheckFifo;
                Step::Io(Request::Read { offset: DWMMC_STATUS })
            },
            TransferPhase::CheckFifo => {
                if (self.is_write && (input & DWMMC_STATUS_FIFO_FULL) == 0) || (input
                    & DWMMC_STATUS_FIFO_EMPTY) == 0 {
                    let mut available_size = (input >> 17u32) & 0x1FFF;
                    if self.is_write {
                        available_size = self.fifo_depth - available_size;
                    }
                    self.burst_left = available_size;
                    self.phase = TransferPhase::Burst;
                    Step::Io(Request::DataBarrier)
                } else {
                    self.phase = TransferPhase::PollFifo;
                    Step::Io(Request::Spin)
                }
            },
            TransferPhase::Burst => {
                if self.burst_left == 0 {
                    if self.is_write {
                        self.phase = TransferPhase::DataLoop;
                        Step::Io(
                            Request::Write {
                                offset: DWMMC_RAW_INTERRUPT_STATUS,
                                value: DWMMC_INTERRUPT_MASK_TRANSMIT_DATA,
                            },
                        )
                    } else {
                        self.loop_head_exec()
                    }
                } else {
                    let index = self.pointer;
                    self.pointer = self.pointer + 1;
                    if self.pointer == self.words {
                        self.burst_left = 0;
                    } else {
                        self.burst_left = self.burst_left - 1;
                    }
                    if self.is_write {
                        Step::Io(Request::WriteWord { index })
                    } else {
                        Step::Io(Request::ReadWord { index })
                    }
                }
            },
            TransferPhase::StopTransmission => {
                match self.stop.resume(input) {
                    Step::Io(request) => Step::Io(request),
                    Step::Done(Ok(())) => {
                        self.phase = TransferPhase::Complete;
                        Step::Io(Request::FlushDataCache)
                    },
                    Step::Done(Err(())) => {
                        self.phase = TransferPhase::Finished;
                        Step::Done(Err(()))
                    },
                }
            },
            TransferPhase::Complete => {
                self.phase = TransferPhase::Finished;
                Step::Done(Ok(()))
            },
            TransferPhase::Finished => Step::Io(Request::Spin),
        }
    }
}


/// The buffer word that a step moves, if it moves one.
pub open spec fn word_index(step: Step<Result<(), ()>>) -> Option<u64> {
    match step {
        Step::Io(Request::ReadWord { index }) => Some(index),
        Step::Io(Request::WriteWord { index }) => Some(index),
        _ => None,
    }
}

/// The buffer words that a sequence of steps moves, in order.
pub open spec fn word_indices(steps: Seq<Step<Result<(), ()>>>) -> Seq<u64>
    decreases steps.len(),
{
    if steps.len() == 0 {
        Seq::empty()
    } else {
        let rest = word_indices(steps.drop_first());
        match word_index(steps[0]) {
            Some(index) => seq![index] + rest,
            None => rest,
        }
    }
}

/// The word indices `from`, `from + 1`, ..., `to - 1`.
pub open spec fn index_range(from: u64, to: u64) -> Seq<u64> {
    Seq::new((to - from) as nat, |i: int| (from + i) as u64)
}

impl Transfer {
    /// The state reached and the steps taken when the machine is resumed
    /// with each of `inputs` in turn.
    pub open spec fn run(self, inputs: Seq<u32>) -> (Transfer, Seq<Step<Result<(), ()>>>)
        decreases inputs.len(),
    {
        if inputs.len() == 0 {
            (self, Seq::empty())
        } else {
            let (t, step) = self.next(inputs[0]);
            let (u, steps) = t.run(inputs.drop_first());
            (u, seq![step] + steps)
        }
    }

    /// Over any run, the buffer words asked for are exactly those from the
    /// starting position up to the final one, each once and in order; and a
    /// run that reports success has reached the end of the buffer.
    pub proof fn lemma_run(self, inputs: Seq<u32>)
        requires
            self.wf(),
        ensures
            ({
                let (u, steps) = self.run(inputs);
                &&& u.wf()
                &&& self.same_job(u)
                &&& self.pointer <= u.pointer
                &&& word_indices(steps) == index_range(self.pointer, u.pointer)
                &&& (steps.contains(Step::Done(Ok(()))) ==> {
                    &&& u.pointer == u.words
                    &&& (u.stop_after ==> u.stop.phase is Succeeded)
                })
            }),
        decreases inputs.len(),
    {
        if inputs.len() == 0 {
            assert(index_range(self.pointer, self.pointer) =~= Seq::<u64>::empty());
        } else {
            let (t, step) = self.next(inputs[0]);
            self.lemma_next(inputs[0]);
            t.lemma_run(inputs.drop_first());
            let (u, rest) = t.run(inputs.drop_first());
            let steps = seq![step] + rest;
            assert(steps.drop_first() =~= rest);
            assert(steps[0] == step);
            match word_index(step) {
                Some(index) => {
                    assert(index_range(self.pointer, u.pointer) =~= seq![self.pointer] + index_range(
                        t.pointer,
                        u.pointer,
                    ));
                },
                None => {
                    assert(t.pointer == self.pointer);
                },
            }
            if steps.contains(Step::Done(Ok(()))) {
                let k = choose|k: int| 0 <= k < steps.len() && steps[k] == Step::<Result<(), ()>>::Done(Ok(()));
                if k > 0 {
                    assert(rest[k - 1] == steps[k]);
                    assert(rest.contains(Step::Done(Ok(()))));
                } else {
                    t.lemma_finished_stays(inputs.drop_first());
                }
            }
        }
    }

    /// A finished transfer stays as it is, whatever it is fed.
    pub proof fn lemma_finished_stays(self, inputs: Seq<u32>)
        requires
            self.phase is Finished,
        ensures
            self.run(inputs).0 == self,
        decreases inputs.len(),
    {
        if inputs.len() > 0 {
            self.lemma_finished_stays(inputs.drop_first());
        }
    }
}

/// A transfer accepted by `DwMmc::read` or `DwMmc::write` asks for the buffer
/// words 0, 1, 2, ... in order, each once, never beyond the buffer; if it
/// reports success it has asked for every word of the buffer, `length / 4`,
/// and, for more than one block, the stop transmission command has succeeded.
/// A one-block transfer never starts the stop transmission command.
pub proof fn lemma_transfer_moves_each_word_once(
    fifo_depth: u32,
    buffer_address: usize,
    block_address: u64,
    length: u64,
    is_write: bool,
    inputs: Seq<u32>,
)
    requires
        block_address % 512 == 0,
        length % 512 == 0,
    ensures
        ({
            let t = Transfer::initial(fifo_depth, buffer_address, block_address, length, is_write);
            let (u, steps) = t.run(inputs);
            &&& word_indices(steps) == index_range(0, u.pointer)
            &&& u.pointer <= length / 4
            &&& (steps.contains(Step::Done(Ok(()))) ==> {
                &&& word_indices(steps) == index_range(0, (length / 4) as u64)
                &&& (length != 512 ==> u.stop.phase is Succeeded)
            })
            &&& (length == 512 ==> u.stop == AcknowledgedCommand::initial(stop_transmission_command(), 0))
        }),
{
    let t = Transfer::initial(fifo_depth, buffer_address, block_address, length, is_write);
    t.lemma_run(inputs);
}

/// The command words, as numbers: set block length 0xA000_2150 and stop
/// transmission 0xA000_414C.
pub proof fn lemma_command_words()
    ensures
        set_block_length_command() == 0xA000_2150,
        stop_transmission_command() == 0xA000_414C,
{
    let b = set_block_length_command();
    let s = stop_transmission_command();
    assert(b == 0x8000_0000u32 | 0x2000_0000 | 0x2000 | 0x100 | 0x40 | 16);
    assert(s == 0x8000_0000u32 | 0x2000_0000 | 0x4000 | 0x100 | 0x40 | 12);
    assert(b == 0xA000_2150) by (bit_vector)
        requires b == 0x8000_0000u32 | 0x2000_0000 | 0x2000 | 0x100 | 0x40 | 16;
    assert(s == 0xA000_414C) by (bit_vector)
        requires s == 0x8000_0000u32 | 0x2000_0000 | 0x4000 | 0x100 | 0x40 | 12;
}

/// How a transfer accepted by `read` or `write` starts: it addresses the card
/// by block number, `block_address / 512` reduced modulo 2^32, which is the
/// argument of its data command; the data command is the single-block read
/// or write for exactly 512 bytes and the multiple-block one otherwise, and
/// only then is a stop command due; it covers `length / 4` words from word 0,
/// allows three retries, and sets the block length to 512 first.
pub proof fn lemma_transfer_start(
    fifo_depth: u32,
    buffer_address: usize,
    block_address: u64,
    length: u64,
    is_write: bool,
)
    ensures
        ({
            let t = Transfer::initial(fifo_depth, buffer_address, block_address, length, is_write);
            &&& t.argument as int == (block_address / 512) as int % 0x1_0000_0000
            &&& t.data_command.argument == t.argument
            &&& t.data_command.command == t.command
            &&& t.command == if is_write {
                if length == 512 { 0xA000_2758u32 } else { 0xA000_2759u32 }
            } else {
                if length == 512 { 0xA000_2351u32 } else { 0xA000_2352u32 }
            }
            &&& t.stop_after == (length != 512)
            &&& t.words == length / 4
            &&& t.pointer == 0
            &&& t.retries_left == 3
            &&& t.fifo_depth == fifo_depth
            &&& t.buffer_address == buffer_address
            &&& t.length == length
            &&& t.is_write == is_write
            &&& t.block_length.exchange.command == 0xA000_2150
            &&& t.block_length.exchange.argument == 512
            &&& t.stop.exchange.command == 0xA000_414C
            &&& t.stop.exchange.argument == 0
        }),
{
    let n: u64 = block_address / 512;
    assert(n as u32 as int == n as int % 0x1_0000_0000) by (bit_vector);
    lemma_command_words();
    lemma_data_command_values();
}

/// The four data command words, as numbers: read single 0xA000_2351, read
/// multiple 0xA000_2352, write single 0xA000_2758, write multiple 0xA000_2759.
pub proof fn lemma_data_command_values()
    ensures
        data_command(false, true) == 0xA000_2351,
        data_command(false, false) == 0xA000_2352,
        data_command(true, true) == 0xA000_2758,
        data_command(true, false) == 0xA000_2759,
{
    let a = data_command_attributes();
    assert(a == 0x8000_0000u32 | 0x2000_0000 | 0x2000 | 0x200 | 0x100 | 0x40);
    assert(a == 0xA000_2340) by (bit_vector)
        requires a == 0x8000_0000u32 | 0x2000_0000 | 0x2000 | 0x200 | 0x100 | 0x40;
    assert(0xA000_2340u32 | 17 == 0xA000_2351) by (bit_vector);
    assert(0xA000_2340u32 | 18 == 0xA000_2352) by (bit_vector);
    assert((0xA000_2340u32 | 24) | 0x400 == 0xA000_2758) by (bit_vector);
    assert((0xA000_2340u32 | 25) | 0x400 == 0xA000_2759) by (bit_vector);
}

impl Transfer {
    /// What each register write of a step carries, whatever the registers
    /// read: the argument register gets 512 while setting the block length,
    /// the transfer's argument with the data command, and 0 with the stop
    /// command; the command register gets 0xA000_2150, the data command word
    /// and 0xA000_414C in the same places; the block size register gets 512
    /// and the byte count register the length modulo 2^32.
    pub proof fn lemma_register_writes(self, input: u32)
        requires
            self.wf(),
        ensures
            ({
                let (t, step) = self.next(input);
                written(step) matches Some((offset, value)) ==> {
                    &&& offset == DWMMC_CMD_ARG ==> {
                        ||| self.phase is SetBlockLength && value == 512
                        ||| self.phase is DataCommand && value == self.argument
                        ||| self.phase is StopTransmission && value == 0
                    }
                    &&& offset == DWMMC_CMD ==> {
                        ||| self.phase is SetBlockLength && value == 0xA000_2150
                        ||| self.phase is DataCommand && value == self.command
                        ||| self.phase is StopTransmission && value == 0xA000_414C
                    }
                    &&& offset == DWMMC_BLOCK_SIZE ==> value == 512
                    &&& offset == DWMMC_BYTE_COUNT ==> value as int == self.length as int % 0x1_0000_0000
                    &&& offset == 0x1C ==> value == 512
                    &&& offset == 0x20 ==> value as int == self.length as int % 0x1_0000_0000
                    &&& offset == 0x28 ==> value == 512 || value == self.argument || value == 0
                    &&& offset == 0x00 ==> value == 2
                    &&& offset == 0x80 ==> self.phase is SetBusMode && value == input | 2
                    &&& offset == 0x4C ==> {
                        &&& self.phase is SetFifoThreshold
                        &&& 2 <= self.fifo_depth < 0x2000 ==> {
                            &&& value >> 28u32 == 2
                            &&& (value >> 16u32) & 0xFFF == self.fifo_depth / 2 - 1
                            &&& value & 0xFFF == self.fifo_depth / 2
                        }
                    }
                    &&& offset == 0x44 && self.phase is CheckInterrupt ==> {
                        &&& !self.is_write
                        &&& value == input & 0x28
                        &&& value != 0
                    }
                    &&& offset == 0x44 && self.phase is Burst ==> self.is_write && value == 0x10
                }
            }),
    {
        lemma_command_words();
        let l = self.length;
        assert(l as u32 as int == l as int % 0x1_0000_0000) by (bit_vector);
        let x = input;
        assert(x | (DWMMC_BUS_MODE_IDMAC_FIXED_BURST & !DWMMC_BUS_MODE_IDMAC_ENABLE) == x | 2)
            by (bit_vector);
        assert(x & (DWMMC_INTERRUPT_MASK_RECEIVE_DATA | DWMMC_INTERRUPT_MASK_DATA_TRANSFER_OVER)
            == x & 0x28) by (bit_vector);
        if 2 <= self.fifo_depth < 0x2000 {
            lemma_fifo_threshold_fields(self.fifo_depth);
        }
    }

    /// The decisions a transfer takes on what it reads, whatever else its
    /// state holds: a raw interrupt status with a start-bit or end-bit error
    /// (bit 13 or 15) ends it with `Err`; otherwise a write waits (re-reading
    /// the raw interrupt status) until "transmit data" (bit 4) is set and
    /// then reads the FIFO status (0x48), and a read waits until "receive
    /// data" or "data transfer over" (bits 5, 3) is set, then clears those
    /// bits by writing them back; a failed data command ends it with
    /// `Err` unless the failure was a time-out (bit 8) with retries left, in
    /// which case the status is written back, one retry is used up, and the
    /// same command starts again; a successful one is followed by reading the
    /// response register (0x30); the block length and stop commands end it
    /// with `Err` when they fail.
    pub proof fn lemma_decisions(self, input: u32)
        requires
            self.wf(),
        ensures
            ({
                let (t, step) = self.next(input);
                &&& self.phase is CheckInterrupt && input & 0xA000 != 0 ==> step
                    == Step::<Result<(), ()>>::Done(Err(()))
                &&& self.phase is CheckInterrupt && input & 0xA000 == 0 ==> if self.is_write {
                    if input & 0x10 == 0 {
                        step == Step::<Result<(), ()>>::Io(Request::Read { offset: 0x44 })
                            && t.phase is CheckInterrupt
                    } else {
                        step == Step::<Result<(), ()>>::Io(Request::Read { offset: 0x48 })
                            && t.phase is CheckFifo
                    }
                } else {
                    if input & 0x28 == 0 {
                        step == Step::<Result<(), ()>>::Io(Request::Read { offset: 0x44 })
                            && t.phase is CheckInterrupt
                    } else {
                        step == Step::<Result<(), ()>>::Io(
                            Request::Write { offset: 0x44, value: input & 0x28 },
                        ) && t.phase is PollFifo
                    }
                }
                &&& (self.phase is DataCommand ==> (self.data_command.next(input).1 matches Step::Done(
                    Err(status),
                ) ==> if status & 0x100 != 0 && self.retries_left > 0 {
                    &&& step == Step::<Result<(), ()>>::Io(Request::Write { offset: 0x44, value: status })
                    &&& t.retries_left == self.retries_left - 1
                    &&& t.phase is DataCommand
                    &&& t.data_command == CommandExchange::initial(self.command, self.argument)
                } else {
                    step == Step::<Result<(), ()>>::Done(Err(()))
                }))
                &&& (self.phase is DataCommand ==> (self.data_command.next(input).1 matches Step::Done(
                    Ok(_),
                ) ==> step == Step::<Result<(), ()>>::Io(Request::Read { offset: 0x30 })))
                &&& (self.phase is SetBlockLength && self.block_length.next(input).1 == Step::<
                    Result<(), ()>,
                >::Done(Err(())) ==> step == Step::<Result<(), ()>>::Done(Err(())))
                &&& (self.phase is StopTransmission && self.stop.next(input).1 == Step::<
                    Result<(), ()>,
                >::Done(Err(())) ==> step == Step::<Result<(), ()>>::Done(Err(())))
            }),
    {
        let x = input;
        assert(x & (DWMMC_INTERRUPT_MASK_START_BIT_ERROR | DWMMC_INTERRUPT_MASK_END_BIT_ERROR)
            == x & 0xA000) by (bit_vector);
        assert(x & (DWMMC_INTERRUPT_MASK_RECEIVE_DATA | DWMMC_INTERRUPT_MASK_DATA_TRANSFER_OVER)
            == x & 0x28) by (bit_vector);
    }

    /// When the FIFO status is checked: if the FIFO is ready (for a write,
    /// not full or not empty; for a read, not empty), a burst starts whose
    /// size is the free room `fifo_depth - level` for a write and the fill
    /// level for a read, the level being bits 17 to 29 of the status;
    /// otherwise the status is polled again.
    pub proof fn lemma_fifo_burst(self, status: u32)
        requires
            self.wf(),
            self.phase is CheckFifo,
            !self.overflows(status),
        ensures
            ({
                let (t, step) = self.next(status);
                let level = (status >> 17u32) & 0x1FFF;
                let ready = (self.is_write && status & 0x8 == 0) || status & 0x4 == 0;
                &&& t.pointer == self.pointer
                &&& ready ==> {
                    &&& t.phase is Burst
                    &&& step == Step::<Result<(), ()>>::Io(Request::DataBarrier)
                    &&& self.is_write ==> level <= self.fifo_depth && t.burst_left == self.fifo_depth - level
                    &&& !self.is_write ==> t.burst_left == level
                }
                &&& !ready ==> t.phase is PollFifo && step == Step::<Result<(), ()>>::Io(Request::Spin)
            }),
    {
    }

    /// A burst of `n` words, `n` the smaller of the burst size and the words
    /// left, takes `n` steps, each moving the next buffer word, and leaves
    /// nothing of the burst: so a burst never moves more words than its size
    /// nor goes past the buffer.
    pub proof fn lemma_burst_moves(self, inputs: Seq<u32>)
        requires
            self.wf(),
            self.phase is Burst,
            inputs.len() == if (self.burst_left as int) < self.words - self.pointer {
                self.burst_left as int
            } else {
                self.words - self.pointer
            },
        ensures
            ({
                let (u, steps) = self.run(inputs);
                &&& u.phase is Burst
                &&& u.burst_left == 0
                &&& u.pointer == self.pointer + inputs.len()
                &&& word_indices(steps) == index_range(self.pointer, u.pointer)
                &&& steps.len() == inputs.len()
            }),
        decreases inputs.len(),
    {
        self.lemma_run(inputs);
        if inputs.len() > 0 {
            let (t, step) = self.next(inputs[0]);
            self.lemma_next(inputs[0]);
            t.lemma_burst_moves(inputs.drop_first());
        }
    }
}

} // verus!
