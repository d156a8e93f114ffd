//! DesignWare MMC host controller.
use vstd::prelude::*;

pub mod command;
pub mod transfer;

use crate::mmio::{reported, Request, Step};
use command::{AckPhase, AcknowledgedCommand, CommandExchange, ExchangePhase};
use transfer::{
    data_command, set_block_length_command, stop_transmission_command, Transfer, TransferPhase,
};

verus! {

/// Size of the register window the controller needs.
pub const DWMMC_MMIO_SIZE: usize = 0x4000;

// Register offsets
pub const DWMMC_CONTROL: usize = 0x00;
pub const DWMMC_TIMEOUT: usize = 0x14;
pub const DWMMC_BLOCK_SIZE: usize = 0x1C;
pub const DWMMC_BYTE_COUNT: usize = 0x20;
pub const DWMMC_CMD_ARG: usize = 0x28;
pub const DWMMC_CMD: usize = 0x2C;
pub const DWMMC_RESPONSE: usize = 0x30;
pub const DWMMC_RAW_INTERRUPT_STATUS: usize = 0x44;
pub const DWMMC_STATUS: usize = 0x48;
pub const DWMMC_FIFO_THRESHOLD: usize = 0x4C;
pub const DWMMC_BUS_MODE: usize = 0x80;
pub const DWMMC_DATA: usize = 0x200;

// Control: bit 1
pub const DWMMC_CONTROL_RESET_FIFO: u32 = 0x2;

// Command attributes: bits 31, 29, 14, 13, 10, 9, 8, 6
pub const DWMMC_CMD_START: u32 = 0x8000_0000;
pub const DWMMC_CMD_USE_HOLD_REGISTER: u32 = 0x2000_0000;
pub const DWMMC_CMD_STOP_ABORT: u32 = 0x4000;
pub const DWMMC_CMD_WAIT_PREVIOUS_DATA: u32 = 0x2000;
pub const DWMMC_CMD_WRITE: u32 = 0x400;
pub const DWMMC_CMD_DATA_EXPECTED: u32 = 0x200;
pub const DWMMC_CMD_RESPONSE_CRC: u32 = 0x100;
pub const DWMMC_CMD_RESPONSE_EXPECTED: u32 = 0x40;

// Command opcodes
pub const MMC_CMD_STOP_TRANSMISSION: u32 = 12;
pub const MMC_CMD_SET_BLOCK_LENGTH: u32 = 16;
pub const MMC_CMD_READ_SINGLE_BLOCK: u32 = 17;
pub const MMC_CMD_READ_MULTIPLE_BLOCK: u32 = 18;
pub const MMC_CMD_WRITE_SINGLE_BLOCK: u32 = 24;
pub const MMC_CMD_WRITE_MULTIPLE_BLOCK: u32 = 25;

// Interrupt masks: bits 15, 13, 8, 5, 4, 3, 2, 1
pub const DWMMC_INTERRUPT_MASK_END_BIT_ERROR: u32 = 0x8000;
pub const DWMMC_INTERRUPT_MASK_START_BIT_ERROR: u32 = 0x2000;
pub const DWMMC_INTERRUPT_MASK_RESPONSE_TIME_OUT: u32 = 0x100;
pub const DWMMC_INTERRUPT_MASK_RECEIVE_DATA: u32 = 0x20;
pub const DWMMC_INTERRUPT_MASK_TRANSMIT_DATA: u32 = 0x10;
pub const DWMMC_INTERRUPT_MASK_DATA_TRANSFER_OVER: u32 = 0x8;
pub const DWMMC_INTERRUPT_MASK_CMD_DONE: u32 = 0x4;
pub const DWMMC_INTERRUPT_MASK_RESPONSE_ERROR: u32 = 0x2;

// Status: bits 9, 3, 2
pub const DWMMC_STATUS_BUSY: u32 = 0x200;
pub const DWMMC_STATUS_FIFO_FULL: u32 = 0x8;
pub const DWMMC_STATUS_FIFO_EMPTY: u32 = 0x4;

// FIFO threshold field offsets
pub const DWMMC_FIFO_THRESHOLD_MSIZE_OFFSET: usize = 28;
pub const DWMMC_FIFO_THRESHOLD_RX_WATERMARK_OFFSET: usize = 16;
pub const DWMMC_FIFO_THRESHOLD_TX_WATERMARK_OFFSET: usize = 0;

// Bus modes: bits 7, 1
pub const DWMMC_BUS_MODE_IDMAC_ENABLE: u32 = 0x80;
pub const DWMMC_BUS_MODE_IDMAC_FIXED_BURST: u32 = 0x2;

/// The block size every transfer uses, in bytes.
pub const DWMMC_BLOCK_SIZE_BYTES: u64 = 512;


/// A DesignWare MMC host controller: the base address of its registers and
/// the depth of its data FIFO in 32-bit words.
#[derive(Clone, Copy, Debug, PartialEq, Eq, Structural)]
pub struct DwMmc {
    base_address: usize,
    fifo_depth: u32,
}

impl DwMmc {
    /// The base address of the register window.
    pub closed spec fn base(&self) -> usize {
        self.base_address
    }

    /// The depth of the data FIFO, in words.
    pub closed spec fn depth(&self) -> u32 {
        self.fifo_depth
    }

    /// A placeholder controller at address zero with no FIFO.
    pub fn invalid() -> (mmc: Self)
        ensures
            mmc.base() == 0,
            mmc.depth() == 0,
    {
        Self { base_address: 0, fifo_depth: 0 }
    }

    /// Bringing up the controller at `base_address`: refused when the
    /// register window of `mmio_size` bytes is too small; otherwise the
    /// block length is set to 512 bytes, and the controller is handed out
    /// once that has succeeded.
    pub fn new(base_address: usize, mmio_size: usize, fifo_depth: u32) -> (res: Result<Setup, ()>)
        ensures
            res is Err <==> mmio_size < DWMMC_MMIO_SIZE,
            res matches Ok(setup) ==> {
                &&& setup.device.base() == base_address
                &&& setup.device.depth() == fifo_depth
                &&& setup.block_length == AcknowledgedCommand::initial(set_block_length_command(), 512)
            },
    {
        if mmio_size < DWMMC_MMIO_SIZE {
            return Err(());
        }
        let mmc = Self { base_address, fifo_depth };
        let block_length = mmc.change_block_size(DWMMC_BLOCK_SIZE_BYTES as usize);
        Ok(Setup { device: mmc, block_length })
    }

    /// The base address of the register window.
    pub fn base_address(&self) -> (r: usize)
        ensures
            r == self.base(),
    {
        self.base_address
    }

    /// The depth of the data FIFO, in words.
    pub fn fifo_depth(&self) -> (r: u32)
        ensures
            r == self.depth(),
    {
        self.fifo_depth
    }

    /// Sending `command` with argument `arg`.
    pub fn send_command(&self, command: u32, arg: u32) -> (exchange: CommandExchange)
        ensures
            exchange == CommandExchange::initial(command, arg),
    {
        CommandExchange { command, argument: arg, phase: ExchangePhase::PollIdle }
    }

    /// Setting the card's block length to `block_size` bytes (truncated to
    /// 32 bits).
    pub fn change_block_size(&self, block_size: usize) -> (op: AcknowledgedCommand)
        ensures
            op == AcknowledgedCommand::initial(set_block_length_command(), block_size as u32),
    {
        let exchange = self.send_command(
            DWMMC_CMD_START | DWMMC_CMD_USE_HOLD_REGISTER | DWMMC_CMD_WAIT_PREVIOUS_DATA
                | DWMMC_CMD_RESPONSE_CRC | DWMMC_CMD_RESPONSE_EXPECTED | MMC_CMD_SET_BLOCK_LENGTH,
            block_size as u32,
        );
        AcknowledgedCommand { exchange, phase: AckPhase::Exchange }
    }

    /// Stopping a multiple-block transmission.
    pub fn stop_transmission(&self) -> (op: AcknowledgedCommand)
        ensures
            op == AcknowledgedCommand::initial(stop_transmission_command(), 0),
    {
        let exchange = self.send_command(
            DWMMC_CMD_START | DWMMC_CMD_USE_HOLD_REGISTER | DWMMC_CMD_STOP_ABORT
                | DWMMC_CMD_RESPONSE_CRC | DWMMC_CMD_RESPONSE_EXPECTED | MMC_CMD_STOP_TRANSMISSION,
            0,
        );
        AcknowledgedCommand { exchange, phase: AckPhase::Exchange }
    }

    /// A synchronous transfer of `length` bytes between the buffer at
    /// `buffer_address` and the card at byte address `block_address`.
    /// Refused, before any register is touched, unless both the address and
    /// the length are multiples of 512.
    pub fn operation_sync(
        &mut self,
        buffer_address: usize,
        block_address: u64,
        length: u64,
        is_write: bool,
    ) -> (res: Result<Transfer, ()>)
        ensures
            *final(self) == *old(self),
            res is Err <==> (block_address % 512 != 0 || length % 512 != 0),
            res matches Ok(transfer) ==> {
                &&& transfer == Transfer::initial(
                    old(self).depth(),
                    buffer_address,
                    block_address,
                    length,
                    is_write,
                )
                &&& transfer.wf()
                &&& transfer.argument as int == (block_address / 512) as int % 0x1_0000_0000
            },
    {
        let block_size: u64 = DWMMC_BLOCK_SIZE_BYTES;
        proof {
            assert(block_address & 511 == block_address % 512) by (bit_vector);
            assert(length & 511 == length % 512) by (bit_vector);
        }
        let block_mask: u64 = block_size - 1;
        if (block_address & block_mask) != 0 || (length & block_mask) != 0 {
            return Err(());
        }
        let block_length = self.change_block_size(block_size as usize);
        let mut command = DWMMC_CMD_START | DWMMC_CMD_USE_HOLD_REGISTER
            | DWMMC_CMD_WAIT_PREVIOUS_DATA | DWMMC_CMD_DATA_EXPECTED | DWMMC_CMD_RESPONSE_CRC
            | DWMMC_CMD_RESPONSE_EXPECTED;
        let mut stop_after = false;
        if is_write {
            if length == block_size {
                command = command | MMC_CMD_WRITE_SINGLE_BLOCK;
            } else {
                command = command | MMC_CMD_WRITE_MULTIPLE_BLOCK;
                stop_after = true;
            }
            command = command | DWMMC_CMD_WRITE;
        } else {
            if length == block_size {
                command = command | MMC_CMD_READ_SINGLE_BLOCK;
            } else {
                command = command | MMC_CMD_READ_MULTIPLE_BLOCK;
                stop_after = true;
            }
        }
        let argument = #[verifier::truncate] ((block_address / block_size) as u32);
        proof {
            let n: u64 = block_address / block_size;
            assert(n as u32 as int == n as int % 0x1_0000_0000) by (bit_vector);
        }
        broadcast use vstd::layout::layout_of_primitives;
        let words = length / (core::mem::size_of::<u32>() as u64);
        let data_command = self.send_command(command, argument);
        let stop = self.stop_transmission();
        Ok(
            Transfer {
                buffer_address,
                length,
                is_write,
                fifo_depth: self.fifo_depth,
                command,
                argument,
                stop_after,
                words,
                pointer: 0,
                retries_left: 3,
                burst_left: 0,
                block_length,
                data_command,
                stop,
                phase: TransferPhase::SetBlockLength,
            },
        )
    }

    /// Reading `length` bytes from the card at byte address `block_address`
    /// into the buffer at `buffer_address`.
    pub fn read(&mut self, buffer_address: usize, block_address: u64, length: u64) -> (res: Result<
        Transfer,
        (),
    >)
        ensures
            *final(self) == *old(self),
            res is Err <==> (block_address % 512 != 0 || length % 512 != 0),
            res matches Ok(transfer) ==> {
                &&& transfer == Transfer::initial(
                    old(self).depth(),
                    buffer_address,
                    block_address,
                    length,
                    false,
                )
                &&& transfer.wf()
                &&& transfer.argument as int == (block_address / 512) as int % 0x1_0000_0000
            },
    {
        self.operation_sync(buffer_address, block_address, length, false)
    }

    /// Writing `length` bytes from the buffer at `buffer_address` to the card
    /// at byte address `block_address`.
    pub fn write(&mut self, buffer_address: usize, block_address: u64, length: u64) -> (res: Result<
        Transfer,
        (),
    >)
        ensures
            *final(self) == *old(self),
            res is Err <==> (block_address % 512 != 0 || length % 512 != 0),
            res matches Ok(transfer) ==> {
                &&& transfer == Transfer::initial(
                    old(self).depth(),
                    buffer_address,
                    block_address,
                    length,
                    true,
                )
                &&& transfer.wf()
                &&& transfer.argument as int == (block_address / 512) as int % 0x1_0000_0000
            },
    {
        self.operation_sync(buffer_address, block_address, length, true)
    }
}

/// Bringing up a controller: setting its block length, then handing it out.
#[derive(Clone, Copy, Debug, PartialEq, Eq, Structural)]
pub struct Setup {
    pub device: DwMmc,
    pub block_length: AcknowledgedCommand,
}

impl Setup {
    /// The next state and step, given the value that answered the last request.
    pub open spec fn next(self, input: u32) -> (Setup, Step<Result<DwMmc, ()>>) {
        let (block_length, step) = self.block_length.next(input);
        match step {
            Step::Io(request) => (Setup { block_length, ..self }, Step::Io(request)),
            Step::Done(Ok(())) => (Setup { block_length, ..self }, Step::Done(Ok(self.device))),
            Step::Done(Err(())) => (Setup { block_length, ..self }, Step::Done(Err(()))),
        }
    }

    /// Advance by one step; `input` is the value of the register read last
    /// asked for, and is ignored after any other request.
    pub fn resume(&mut self, input: u32) -> (step: Step<Result<DwMmc, ()>>)
        requires
            old(self).block_length.active(),
        ensures
            (*final(self), step) == old(self).next(input),
    {
        match self.block_length.resume(input) {
            Step::Io(request) => Step::Io(request),
            Step::Done(Ok(())) => Step::Done(Ok(self.device)),
            Step::Done(Err(())) => Step::Done(Err(())),
        }
    }
}

impl Setup {
    /// Bring-up hands out exactly the device it was made for, and only once
    /// setting the block length has succeeded; it fails exactly when that
    /// command fails.
    pub proof fn lemma_step(self, input: u32)
        requires
            self.block_length.active(),
        ensures
            ({
                let (s, step) = self.next(input);
                let inner = self.block_length.next(input).1;
                &&& s.device == self.device
                &&& reported(step) matches Some(Ok(device)) ==> device == self.device && inner
                    == Step::<Result<(), ()>>::Done(Ok(()))
                &&& reported(step) == Some(Err::<DwMmc, ()>(())) <==> inner == Step::<
                    Result<(), ()>,
                >::Done(Err(()))
                &&& inner == Step::<Result<(), ()>>::Done(Ok(())) ==> step == Step::<Result<DwMmc, ()>>::Done(Ok(self.device))
            }),
    {
    }
}

} // verus!
