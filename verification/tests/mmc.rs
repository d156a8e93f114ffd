use mini_visor::drivers::dw_mmc::command::{AckPhase, CommandExchange, ExchangePhase};
use mini_visor::drivers::dw_mmc::transfer::{Transfer, TransferPhase};
use mini_visor::drivers::dw_mmc::{
    DwMmc, Setup, DWMMC_BLOCK_SIZE, DWMMC_BUS_MODE, DWMMC_BYTE_COUNT, DWMMC_CMD, DWMMC_CMD_ARG,
    DWMMC_CONTROL, DWMMC_FIFO_THRESHOLD, DWMMC_RAW_INTERRUPT_STATUS, DWMMC_RESPONSE, DWMMC_STATUS,
    DWMMC_TIMEOUT,
};
use mini_visor::mmio::{Request, Step};

const CMD_DONE: u32 = 0x4;
const RESPONSE_ERROR: u32 = 0x2;
const RESPONSE_TIME_OUT: u32 = 0x100;
const RECEIVE_DATA: u32 = 0x20;
const TRANSMIT_DATA: u32 = 0x10;
const START_BIT_ERROR: u32 = 0x2000;

/// Runs a command exchange to its end against fixed register answers,
/// checking the request sequence.
fn run_exchange(mut e: CommandExchange, done_status: u32) -> Result<u32, u32> {
    let command = e.command;
    let argument = e.argument;
    assert_eq!(e.resume(0), Step::Io(Request::Read { offset: DWMMC_STATUS }));
    assert_eq!(e.resume(0), Step::Io(Request::Write { offset: DWMMC_RAW_INTERRUPT_STATUS, value: 0xFFFF }));
    assert_eq!(e.resume(0), Step::Io(Request::Write { offset: DWMMC_TIMEOUT, value: u32::MAX }));
    assert_eq!(e.resume(0), Step::Io(Request::Write { offset: DWMMC_CMD_ARG, value: argument }));
    assert_eq!(e.resume(0), Step::Io(Request::Write { offset: DWMMC_CMD, value: command }));
    assert_eq!(e.resume(0), Step::Io(Request::Read { offset: DWMMC_RAW_INTERRUPT_STATUS }));
    match e.resume(done_status) {
        Step::Done(r) => r,
        other => panic!("unexpected {:?}", other),
    }
}

#[test]
fn mmc_invalid_is_empty() {
    let mmc = DwMmc::invalid();
    assert_eq!(mmc.base_address(), 0);
    assert_eq!(mmc.fifo_depth(), 0);
}

#[test]
fn mmc_new_checks_window() {
    assert!(DwMmc::new(0xFE2B_0000, 0x3FFF, 0x100).is_err());
    assert!(DwMmc::new(0xFE2B_0000, 0, 0x100).is_err());
    let setup = DwMmc::new(0xFE2B_0000, 0x4000, 0x100).unwrap();
    assert_eq!(setup.device.base_address(), 0xFE2B_0000);
    assert_eq!(setup.device.fifo_depth(), 0x100);
    assert_eq!(setup.block_length.exchange.command, 0xA000_2150);
    assert_eq!(setup.block_length.exchange.argument, 512);
}

#[test]
fn mmc_command_words() {
    let mmc = DwMmc::invalid();
    assert_eq!(mmc.change_block_size(512).exchange.command, 0xA000_2150);
    assert_eq!(mmc.change_block_size(0x1_0000_0200).exchange.argument, 0x200);
    assert_eq!(mmc.stop_transmission().exchange.command, 0xA000_414C);
    assert_eq!(mmc.stop_transmission().exchange.argument, 0);
    let e = mmc.send_command(7, 9);
    assert_eq!((e.command, e.argument, e.phase), (7, 9, ExchangePhase::PollIdle));
}

#[test]
fn mmc_exchange_waits_while_busy() {
    let mut e = DwMmc::invalid().send_command(0x1234, 0x10);
    assert_eq!(e.resume(0), Step::Io(Request::Read { offset: DWMMC_STATUS }));
    assert_eq!(e.resume(0x200), Step::Io(Request::Spin));
    assert_eq!(e.resume(0), Step::Io(Request::Read { offset: DWMMC_STATUS }));
    assert_eq!(e.resume(0x1FF), Step::Io(Request::Write { offset: DWMMC_RAW_INTERRUPT_STATUS, value: 0xFFFF }));
}

#[test]
fn mmc_exchange_waits_for_done() {
    let mut e = DwMmc::invalid().send_command(0x1234, 0x10);
    for _ in 0..5 {
        e.resume(0);
    }
    assert_eq!(e.resume(0), Step::Io(Request::Read { offset: DWMMC_RAW_INTERRUPT_STATUS }));
    assert_eq!(e.resume(RESPONSE_ERROR), Step::Io(Request::Spin));
    assert_eq!(e.resume(0), Step::Io(Request::Read { offset: DWMMC_RAW_INTERRUPT_STATUS }));
    assert_eq!(e.resume(CMD_DONE | 0x8), Step::Done(Ok(0xC)));
}

#[test]
fn mmc_exchange_outcomes() {
    let mmc = DwMmc::invalid();
    assert_eq!(run_exchange(mmc.send_command(1, 2), CMD_DONE), Ok(CMD_DONE));
    assert_eq!(run_exchange(mmc.send_command(1, 2), CMD_DONE | RESPONSE_ERROR), Err(0x6));
    assert_eq!(run_exchange(mmc.send_command(1, 2), CMD_DONE | RESPONSE_TIME_OUT), Err(0x104));
}

#[test]
fn mmc_acknowledged_command_success() {
    let mut op = DwMmc::invalid().stop_transmission();
    for _ in 0..6 {
        op.resume(0);
    }
    assert_eq!(op.resume(CMD_DONE | 0x40), Step::Io(Request::Write { offset: DWMMC_RAW_INTERRUPT_STATUS, value: 0x44 }));
    assert_eq!(op.resume(0), Step::Io(Request::Read { offset: DWMMC_RESPONSE }));
    assert_eq!(op.resume(0xDEAD), Step::Done(Ok(())));
    assert_eq!(op.phase, AckPhase::Succeeded);
}

#[test]
fn mmc_acknowledged_command_failure() {
    let mut op = DwMmc::invalid().stop_transmission();
    for _ in 0..6 {
        op.resume(0);
    }
    assert_eq!(op.resume(CMD_DONE | RESPONSE_ERROR), Step::Done(Err(())));
    assert_eq!(op.phase, AckPhase::Failed);
}

fn finish_setup(setup: &mut Setup, done_status: u32) -> Step<Result<DwMmc, ()>> {
    for _ in 0..6 {
        assert!(matches!(setup.resume(0), Step::Io(_)));
    }
    setup.resume(done_status)
}

#[test]
fn mmc_setup_hands_out_device() {
    let mut setup = DwMmc::new(0x1000, 0x4000, 64).unwrap();
    assert_eq!(finish_setup(&mut setup, CMD_DONE), Step::Io(Request::Write { offset: DWMMC_RAW_INTERRUPT_STATUS, value: CMD_DONE }));
    assert_eq!(setup.resume(0), Step::Io(Request::Read { offset: DWMMC_RESPONSE }));
    match setup.resume(0) {
        Step::Done(Ok(mmc)) => {
            assert_eq!(mmc.base_address(), 0x1000);
            assert_eq!(mmc.fifo_depth(), 64);
        }
        other => panic!("unexpected {:?}", other),
    }
}

#[test]
fn mmc_setup_fails_with_command() {
    let mut setup = DwMmc::new(0x1000, 0x4000, 64).unwrap();
    assert_eq!(finish_setup(&mut setup, CMD_DONE | RESPONSE_TIME_OUT), Step::Done(Err(())));
}

#[test]
fn mmc_transfer_needs_alignment() {
    let mut mmc = DwMmc::invalid();
    assert!(mmc.read(0x8000, 1, 512).is_err());
    assert!(mmc.read(0x8000, 512, 100).is_err());
    assert!(mmc.write(0x8000, 0x200, 0x201).is_err());
    assert!(mmc.write(0x8000, 0x1FF, 0x200).is_err());
    assert!(mmc.read(0x8000, 0, 0).is_ok());
    assert!(mmc.write(0x8000, 0x400, 0x600).is_ok());
}

#[test]
fn mmc_transfer_commands() {
    let mut mmc = DwMmc::invalid();
    let t = mmc.read(0x8000, 0x400, 512).unwrap();
    assert_eq!((t.command, t.argument, t.stop_after, t.words), (0xA000_2351, 2, false, 128));
    let t = mmc.read(0x8000, 0x400, 1024).unwrap();
    assert_eq!((t.command, t.stop_after, t.words), (0xA000_2352, true, 256));
    let t = mmc.write(0x8000, 0x400, 512).unwrap();
    assert_eq!((t.command, t.stop_after), (0xA000_2758, false));
    let t = mmc.write(0x8000, 0x400, 1024).unwrap();
    assert_eq!((t.command, t.stop_after), (0xA000_2759, true));
    assert_eq!(t.phase, TransferPhase::SetBlockLength);
    assert_eq!((t.pointer, t.retries_left, t.buffer_address), (0, 3, 0x8000));
    // The block number is truncated to 32 bits.
    let t = mmc.read(0, 0x200_0000_0400, 512).unwrap();
    assert_eq!(t.argument, 2);
}

/// A simulated controller answering register reads.
struct Card {
    is_write: bool,
    fifo_depth: u32,
    /// Answers for the "command done" reads of successive commands.
    command_status: Vec<u32>,
    /// Whether a command has been issued and its "done" read is due.
    awaiting_done: bool,
    /// Answers for the raw interrupt reads of the data phase; a data-ready
    /// status once these are used up.
    data_status: Vec<u32>,
    /// Words in the data FIFO (for reads) or free slots (for writes), reported per poll.
    fifo_level: u32,
    memory: Vec<u32>,
    buffer: Vec<u32>,
    log: Vec<Request>,
    commands: Vec<(u32, u32)>,
    pending_arg: u32,
}

impl Card {
    fn answer(&mut self, request: &Request) -> u32 {
        self.log.push(*request);
        match *request {
            Request::Read { offset } if offset == DWMMC_STATUS => {
                let count = if self.is_write { self.fifo_depth - self.fifo_level } else { self.fifo_level };
                count << 17
            }
            Request::Read { offset } if offset == DWMMC_RAW_INTERRUPT_STATUS => {
                if self.awaiting_done {
                    self.awaiting_done = false;
                    return self.command_status.remove(0);
                }
                if !self.data_status.is_empty() {
                    return self.data_status.remove(0);
                }
                if self.is_write { TRANSMIT_DATA } else { RECEIVE_DATA }
            }
            Request::Read { offset } if offset == DWMMC_BUS_MODE => 0x100,
            Request::Read { .. } => 0,
            Request::Write { offset, value } if offset == DWMMC_CMD_ARG => {
                self.pending_arg = value;
                0
            }
            Request::Write { offset, value } if offset == DWMMC_CMD => {
                self.commands.push((value, self.pending_arg));
                self.awaiting_done = true;
                0
            }
            Request::ReadWord { index } => {
                self.buffer[index as usize] = self.memory[index as usize];
                0
            }
            Request::WriteWord { index } => {
                self.memory[index as usize] = self.buffer[index as usize];
                0
            }
            _ => 0,
        }
    }
}

fn card(is_write: bool, words: usize, statuses: Vec<u32>) -> Card {
    Card {
        is_write,
        fifo_depth: 64,
        command_status: statuses,
        awaiting_done: false,
        data_status: Vec::new(),
        fifo_level: 48,
        memory: (0..words as u32).map(|i| if is_write { 0 } else { 0x1000 + i }).collect(),
        buffer: (0..words as u32).map(|i| if is_write { 0x2000 + i } else { 0 }).collect(),
        log: Vec::new(),
        commands: Vec::new(),
        pending_arg: 0,
    }
}

fn drive(t: &mut Transfer, card: &mut Card) -> Result<(), ()> {
    let mut input = 0;
    for _ in 0..100_000 {
        assert!(!t.would_overflow(input));
        match t.resume(input) {
            Step::Io(request) => input = card.answer(&request),
            Step::Done(r) => return r,
        }
    }
    panic!("transfer did not finish");
}

/// Command-done answers: the simulated card replies "done" to each command.
fn done_statuses(n: usize) -> Vec<u32> {
    let mut v = Vec::new();
    for _ in 0..n {
        v.push(CMD_DONE);
    }
    v
}

#[test]
fn mmc_read_single_block() {
    let mut mmc = DwMmc::new(0x1000, 0x4000, 64).unwrap().device;
    let mut t = mmc.read(0x8000, 0x600, 512).unwrap();
    let mut c = card(false, 128, done_statuses(2));
    assert_eq!(drive(&mut t, &mut c), Ok(()));
    assert_eq!(c.buffer, c.memory);
    assert_eq!(c.commands, vec![(0xA000_2150, 512), (0xA000_2351, 3)]);
    assert_eq!(t.pointer, 128);
    let words: Vec<u64> = c
        .log
        .iter()
        .filter_map(|r| if let Request::ReadWord { index } = r { Some(*index) } else { None })
        .collect();
    assert_eq!(words, (0..128).collect::<Vec<u64>>());
    assert!(c.log.contains(&Request::Write { offset: DWMMC_BLOCK_SIZE, value: 512 }));
    assert!(c.log.contains(&Request::Write { offset: DWMMC_BYTE_COUNT, value: 512 }));
    assert!(c.log.contains(&Request::Write { offset: DWMMC_FIFO_THRESHOLD, value: 0x201F_0020 }));
    assert!(c.log.contains(&Request::Write { offset: DWMMC_CONTROL, value: 2 }));
    assert!(c.log.contains(&Request::Write { offset: DWMMC_BUS_MODE, value: 0x102 }));
    assert_eq!(c.log.last(), Some(&Request::FlushDataCache));
}

#[test]
fn mmc_write_multiple_blocks_stops_transmission() {
    let mut mmc = DwMmc::new(0x1000, 0x4000, 64).unwrap().device;
    let mut t = mmc.write(0x8000, 0, 1024).unwrap();
    let mut c = card(true, 256, done_statuses(3));
    assert_eq!(drive(&mut t, &mut c), Ok(()));
    assert_eq!(c.memory, c.buffer);
    assert_eq!(c.commands, vec![(0xA000_2150, 512), (0xA000_2759, 0), (0xA000_414C, 0)]);
    let words: Vec<u64> = c
        .log
        .iter()
        .filter_map(|r| if let Request::WriteWord { index } = r { Some(*index) } else { None })
        .collect();
    assert_eq!(words, (0..256).collect::<Vec<u64>>());
}

#[test]
fn mmc_retries_timed_out_command_three_times() {
    let mut mmc = DwMmc::new(0x1000, 0x4000, 64).unwrap().device;
    let mut t = mmc.read(0x8000, 0, 512).unwrap();
    let timeout = CMD_DONE | RESPONSE_TIME_OUT;
    let mut c = card(false, 128, vec![CMD_DONE, timeout, timeout, timeout, CMD_DONE]);
    assert_eq!(drive(&mut t, &mut c), Ok(()));
    assert_eq!(c.commands.len(), 5);
    assert_eq!(t.retries_left, 0);
    assert_eq!(c.log.iter().filter(|r| **r == Request::Write { offset: DWMMC_RAW_INTERRUPT_STATUS, value: timeout }).count(), 3);
}

#[test]
fn mmc_gives_up_after_three_retries() {
    let mut mmc = DwMmc::new(0x1000, 0x4000, 64).unwrap().device;
    let mut t = mmc.read(0x8000, 0, 512).unwrap();
    let timeout = CMD_DONE | RESPONSE_TIME_OUT;
    let mut c = card(false, 128, vec![CMD_DONE, timeout, timeout, timeout, timeout]);
    assert_eq!(drive(&mut t, &mut c), Err(()));
    assert_eq!(c.commands.len(), 5);
    assert!(!c.log.iter().any(|r| matches!(r, Request::ReadWord { .. })));
}

#[test]
fn mmc_response_error_is_not_retried() {
    let mut mmc = DwMmc::new(0x1000, 0x4000, 64).unwrap().device;
    let mut t = mmc.read(0x8000, 0, 512).unwrap();
    let mut c = card(false, 128, vec![CMD_DONE, CMD_DONE | RESPONSE_ERROR]);
    assert_eq!(drive(&mut t, &mut c), Err(()));
    assert_eq!(c.commands.len(), 2);
}

#[test]
fn mmc_block_length_failure_stops_early() {
    let mut mmc = DwMmc::new(0x1000, 0x4000, 64).unwrap().device;
    let mut t = mmc.write(0x8000, 0, 512).unwrap();
    let mut c = card(true, 128, vec![CMD_DONE | RESPONSE_ERROR]);
    assert_eq!(drive(&mut t, &mut c), Err(()));
    assert_eq!(c.commands.len(), 1);
    assert!(!c.log.contains(&Request::DataBarrier));
}

#[test]
fn mmc_data_error_aborts() {
    let mut mmc = DwMmc::new(0x1000, 0x4000, 64).unwrap().device;
    let mut t = mmc.read(0x8000, 0, 512).unwrap();
    let mut c = card(false, 128, done_statuses(2));
    c.data_status = vec![0, START_BIT_ERROR];
    assert_eq!(drive(&mut t, &mut c), Err(()));
    assert_eq!(t.pointer, 0);
}

#[test]
fn mmc_zero_length_read_stops_transmission() {
    let mut mmc = DwMmc::new(0x1000, 0x4000, 64).unwrap().device;
    let mut t = mmc.read(0x8000, 0, 0).unwrap();
    let mut c = card(false, 0, done_statuses(3));
    assert_eq!(drive(&mut t, &mut c), Ok(()));
    assert_eq!(c.commands, vec![(0xA000_2150, 512), (0xA000_2352, 0), (0xA000_414C, 0)]);
}

#[test]
fn mmc_overflow_detection() {
    let mut mmc = DwMmc::new(0x1000, 0x4000, 1).unwrap().device;
    let mut t = mmc.read(0x8000, 0, 512).unwrap();
    let mut c = card(false, 128, done_statuses(1));
    let mut input = 0;
    loop {
        if t.phase == TransferPhase::SetFifoThreshold {
            assert!(t.would_overflow(input));
            break;
        }
        match t.resume(input) {
            Step::Io(request) => input = c.answer(&request),
            Step::Done(_) => panic!("finished early"),
        }
    }
    let mut mmc = DwMmc::invalid();
    let mut t = mmc.write(0, 0, 512).unwrap();
    t.fifo_depth = 4;
    t.phase = TransferPhase::CheckFifo;
    t.data_command.phase = ExchangePhase::Finished;
    assert!(t.would_overflow(5 << 17));
    assert!(!t.would_overflow(4 << 17));
    assert!(!t.would_overflow((5 << 17) | 0xC));
}
