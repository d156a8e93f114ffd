//! One command exchange with the card, with and without acknowledgement.
use vstd::prelude::*;
use crate::mmio::{read_from, reported, written, Request, Step};
use super::{
    DWMMC_CMD, DWMMC_CMD_ARG, DWMMC_INTERRUPT_MASK_CMD_DONE, DWMMC_INTERRUPT_MASK_RESPONSE_ERROR,
    DWMMC_INTERRUPT_MASK_RESPONSE_TIME_OUT, DWMMC_RAW_INTERRUPT_STATUS, DWMMC_RESPONSE,
    DWMMC_STATUS, DWMMC_STATUS_BUSY, DWMMC_TIMEOUT,
};

verus! {

/// Whether a raw interrupt status reports a failed command: a response
/// error or a response time-out.
pub open spec fn command_failed(status: u32) -> bool {
    status & (DWMMC_INTERRUPT_MASK_RESPONSE_ERROR | DWMMC_INTERRUPT_MASK_RESPONSE_TIME_OUT) != 0
}

/// How a command ends, given the raw interrupt status that reported it done.
pub open spec fn command_outcome(status: u32) -> Result<u32, u32> {
    if command_failed(status) {
        Err(status)
    } else {
        Ok(status)
    }
}

/// Where a command exchange stands.
#[derive(Clone, Copy, Debug, PartialEq, Eq, Structural)]
pub enum ExchangePhase {
    /// About to read the status register.
    PollIdle,
    /// The input is the status register just read.
    CheckIdle,
    /// The raw interrupt status has been cleared; the time-out comes next.
    SetTimeout,
    /// The argument comes next.
    SetArgument,
    /// The command word comes next.
    IssueCommand,
    /// About to read the raw interrupt status.
    PollDone,
    /// The input is the raw interrupt status just read.
    CheckDone,
    /// The outcome has been reported.
    Finished,
}

/// Sending one command: wait while the controller is busy, clear the raw
/// interrupt status, set the time-out, write argument and command, then wait
/// for "command done" and report the raw interrupt status: `Err` when it
/// holds a response error or time-out, `Ok` otherwise.
#[derive(Clone, Copy, Debug, PartialEq, Eq, Structural)]
pub struct CommandExchange {
    pub command: u32,
    pub argument: u32,
    pub phase: ExchangePhase,
}

impl CommandExchange {
    /// An exchange of `command` with `argument` that has not started.
    pub open spec fn initial(command: u32, argument: u32) -> CommandExchange {
        CommandExchange { command, argument, phase: ExchangePhase::PollIdle }
    }

    /// The next state and step, given the value that answered the last request.
    pub open spec fn next(self, input: u32) -> (CommandExchange, Step<Result<u32, u32>>) {
        match self.phase {
            ExchangePhase::PollIdle => (
                CommandExchange { phase: ExchangePhase::CheckIdle, ..self },
                Step::Io(Request::Read { offset: DWMMC_STATUS }),
            ),
            ExchangePhase::CheckIdle => if input & DWMMC_STATUS_BUSY != 0 {
                (CommandExchange { phase: ExchangePhase::PollIdle, ..self }, Step::Io(Request::Spin))
            } else {
                (
                    CommandExchange { phase: ExchangePhase::SetTimeout, ..self },
                    Step::Io(Request::Write { offset: DWMMC_RAW_INTERRUPT_STATUS, value: 0xFFFF }),
                )
            },
            ExchangePhase::SetTimeout => (
                CommandExchange { phase: ExchangePhase::SetArgument, ..self },
                Step::Io(Request::Write { offset: DWMMC_TIMEOUT, value: 0xFFFF_FFFF }),
            ),
            ExchangePhase::SetArgument => (
                CommandExchange { phase: ExchangePhase::IssueCommand, ..self },
                Step::Io(Request::Write { offset: DWMMC_CMD_ARG, value: self.argument }),
            ),
            ExchangePhase::IssueCommand => (
                CommandExchange { phase: ExchangePhase::PollDone, ..self },
                Step::Io(Request::Write { offset: DWMMC_CMD, value: self.command }),
            ),
            ExchangePhase::PollDone => (
                CommandExchange { phase: ExchangePhase::CheckDone, ..self },
                Step::Io(Request::Read { offset: DWMMC_RAW_INTERRUPT_STATUS }),
            ),
            ExchangePhase::CheckDone => if input & DWMMC_INTERRUPT_MASK_CMD_DONE == 0 {
                (CommandExchange { phase: ExchangePhase::PollDone, ..self }, Step::Io(Request::Spin))
            } else {
                (
                    CommandExchange { phase: ExchangePhase::Finished, ..self },
                    Step::Done(command_outcome(input)),
                )
            },
            ExchangePhase::Finished => (self, Step::Io(Request::Spin)),
        }
    }

    /// Advance by one step; `input` is the value of the register read last
    /// asked for, and is ignored after any other request.
    pub fn resume(&mut self, input: u32) -> (step: Step<Result<u32, u32>>)
        requires
            !(old(self).phase is Finished),
        ensures
            (*final(self), step) == old(self).next(input),
    {
        match self.phase {
            ExchangePhase::PollIdle => {
                self.phase = ExchangePhase::CheckIdle;
                Step::Io(Request::Read { offset: DWMMC_STATUS })
            },
            ExchangePhase::CheckIdle => {
                if (input & DWMMC_STATUS_BUSY) != 0 {
                    self.phase = ExchangePhase::PollIdle;
                    Step::Io(Request::Spin)
                } else {
                    self.phase = ExchangePhase::SetTimeout;
                    Step::Io(
                        Request::Write { offset: DWMMC_RAW_INTERRUPT_STATUS, value: u16::MAX as u32 },
                    )
                }
            },
            ExchangePhase::SetTimeout => {
                self.phase = ExchangePhase::SetArgument;
                Step::Io(Request::Write { offset: DWMMC_TIMEOUT, value: u32::MAX })
            },
            ExchangePhase::SetArgument => {
                self.phase = ExchangePhase::IssueCommand;
                Step::Io(Request::Write { offset: DWMMC_CMD_ARG, value: self.argument })
            },
            ExchangePhase::IssueCommand => {
                self.phase = ExchangePhase::PollDone;
                Step::Io(Request::Write { offset: DWMMC_CMD, value: self.command })
            },
            ExchangePhase::PollDone => {
                self.phase = ExchangePhase::CheckDone;
                Step::Io(Request::Read { offset: DWMMC_RAW_INTERRUPT_STATUS })
            },
            ExchangePhase::CheckDone => {
                if (input & DWMMC_INTERRUPT_MASK_CMD_DONE) != 0 {
                    self.phase = ExchangePhase::Finished;
                    if (input & (DWMMC_INTERRUPT_MASK_RESPONSE_ERROR
                        | DWMMC_INTERRUPT_MASK_RESPONSE_TIME_OUT)) != 0 {
                        Step::Done(Err(input))
                    } else {
                        Step::Done(Ok(input))
                    }
                } else {
                    self.phase = ExchangePhase::PollDone;
                    Step::Io(Request::Spin)
                }
            },
            ExchangePhase::Finished => Step::Io(Request::Spin),
        }
    }
}

/// Whether an exchange in this phase has written its command register.
pub open spec fn issued(phase: ExchangePhase) -> bool {
    match phase {
        ExchangePhase::PollDone | ExchangePhase::CheckDone | ExchangePhase::Finished => true,
        _ => false,
    }
}

/// How many steps write the command register.
pub open spec fn command_writes(steps: Seq<Step<Result<u32, u32>>>) -> nat
    decreases steps.len(),
{
    if steps.len() == 0 {
        0
    } else {
        let rest = command_writes(steps.drop_first());
        match steps[0] {
            Step::Io(Request::Write { offset, value: _ }) => if offset == DWMMC_CMD {
                rest + 1
            } else {
                rest
            },
            _ => rest,
        }
    }
}

/// Whether some step reports an outcome.
pub open spec fn reports(steps: Seq<Step<Result<u32, u32>>>) -> bool {
    exists|k: int| 0 <= k < steps.len() && steps[k] is Done
}

impl CommandExchange {
    /// The state reached and the steps taken when the exchange is resumed
    /// with each of `inputs` in turn.
    pub open spec fn run(self, inputs: Seq<u32>) -> (CommandExchange, Seq<Step<Result<u32, u32>>>)
        decreases inputs.len(),
    {
        if inputs.len() == 0 {
            (self, Seq::empty())
        } else {
            let (e, step) = self.next(inputs[0]);
            let (f, steps) = e.run(inputs.drop_first());
            (f, seq![step] + steps)
        }
    }

    /// Over any run, an exchange writes the command register at most once,
    /// never again once it has, and reports an outcome only after writing it.
    pub proof fn lemma_run(self, inputs: Seq<u32>)
        ensures
            ({
                let (f, steps) = self.run(inputs);
                &&& command_writes(steps) <= if issued(self.phase) {
                    0nat
                } else {
                    1nat
                }
                &&& (reports(steps) && !issued(self.phase) ==> command_writes(steps) == 1)
                &&& f.command == self.command
                &&& f.argument == self.argument
                &&& steps.len() == inputs.len()
                &&& forall|k: int|
                    0 <= k < steps.len() && (#[trigger] written(steps[k])) is Some ==> {
                        let (offset, value) = written(steps[k]).unwrap();
                        ||| offset == 0x44 && value == 0xFFFF && inputs[k] & 0x200 == 0
                        ||| offset == 0x14 && value == 0xFFFF_FFFF
                        ||| offset == 0x28 && value == self.argument
                        ||| offset == 0x2C && value == self.command
                    }
                &&& forall|k: int|
                    0 <= k < steps.len() && (#[trigger] read_from(steps[k])) is Some ==> {
                        ||| read_from(steps[k]) == Some(0x48usize)
                        ||| read_from(steps[k]) == Some(0x44usize)
                    }
                &&& forall|k: int|
                    0 <= k < steps.len() && (#[trigger] reported(steps[k])) is Some ==> {
                        &&& inputs[k] & 0x4 != 0
                        &&& reported(steps[k]) == Some(if inputs[k] & 0x102 != 0 {
                            Err::<u32, u32>(inputs[k])
                        } else {
                            Ok::<u32, u32>(inputs[k])
                        })
                    }
            }),
        decreases inputs.len(),
    {
        if inputs.len() > 0 {
            let (e, step) = self.next(inputs[0]);
            e.lemma_run(inputs.drop_first());
            let (f, rest) = e.run(inputs.drop_first());
            let steps = seq![step] + rest;
            assert(steps.drop_first() =~= rest);
            assert(steps[0] == step);
            assert forall|k: int|
                0 <= k < steps.len() && (#[trigger] written(steps[k])) is Some implies {
                    let (offset, value) = written(steps[k]).unwrap();
                    ||| offset == 0x44 && value == 0xFFFF && inputs[k] & 0x200 == 0
                    ||| offset == 0x14 && value == 0xFFFF_FFFF
                    ||| offset == 0x28 && value == self.argument
                    ||| offset == 0x2C && value == self.command
                } by {
                if k > 0 {
                    assert(steps[k] == rest[k - 1]);
                    assert(inputs.drop_first()[k - 1] == inputs[k]);
                }
            }
            assert forall|k: int|
                0 <= k < steps.len() && (#[trigger] read_from(steps[k])) is Some implies {
                    ||| read_from(steps[k]) == Some(0x48usize)
                    ||| read_from(steps[k]) == Some(0x44usize)
                } by {
                if k > 0 {
                    assert(steps[k] == rest[k - 1]);
                }
            }
            assert forall|k: int|
                0 <= k < steps.len() && (#[trigger] reported(steps[k])) is Some implies {
                    &&& inputs[k] & 0x4 != 0
                    &&& reported(steps[k]) == Some(if inputs[k] & 0x102 != 0 {
                        Err::<u32, u32>(inputs[k])
                    } else {
                        Ok::<u32, u32>(inputs[k])
                    })
                } by {
                if k > 0 {
                    assert(steps[k] == rest[k - 1]);
                    assert(inputs.drop_first()[k - 1] == inputs[k]);
                } else {
                    let x = inputs[0];
                    assert(x & (DWMMC_INTERRUPT_MASK_RESPONSE_ERROR | DWMMC_INTERRUPT_MASK_RESPONSE_TIME_OUT)
                        == x & 0x102) by (bit_vector);
                }
            }
            if reports(steps) && !issued(self.phase) {
                let k = choose|k: int| 0 <= k < steps.len() && steps[k] is Done;
                if k > 0 {
                    assert(rest[k - 1] == steps[k]);
                    assert(reports(rest));
                }
            }
        }
    }
}

/// An exchange started by `DwMmc::send_command(command, argument)` writes its
/// command exactly once before it reports an outcome, and never more than
/// once; whatever the registers read, it writes only: 0xFFFF to the raw
/// interrupt status (0x44), in answer to a status with the busy bit (bit 9)
/// clear; all ones to the time-out register (0x14); `argument` to the argument
/// register (0x28); `command` to the command register (0x2C); it reads only
/// the status (0x48) and raw interrupt status (0x44) registers; and the
/// outcome is the raw interrupt status that showed "command done" (bit 2),
/// as `Err` exactly when it has the response error or time-out bit
/// (bits 1, 8).
pub proof fn lemma_command_sent_once(command: u32, argument: u32, inputs: Seq<u32>)
    ensures
        ({
            let (_, steps) = CommandExchange::initial(command, argument).run(inputs);
            &&& command_writes(steps) <= 1
            &&& (reports(steps) ==> command_writes(steps) == 1)
            &&& forall|k: int|
                0 <= k < steps.len() && (#[trigger] written(steps[k])) is Some ==> {
                    let (offset, value) = written(steps[k]).unwrap();
                    ||| offset == 0x44 && value == 0xFFFF && inputs[k] & 0x200 == 0
                    ||| offset == 0x14 && value == 0xFFFF_FFFF
                    ||| offset == 0x28 && value == argument
                    ||| offset == 0x2C && value == command
                }
            &&& forall|k: int|
                0 <= k < steps.len() && (#[trigger] read_from(steps[k])) is Some ==> {
                    ||| read_from(steps[k]) == Some(0x48usize)
                    ||| read_from(steps[k]) == Some(0x44usize)
                }
            &&& forall|k: int|
                0 <= k < steps.len() && (#[trigger] reported(steps[k])) is Some ==> {
                    &&& inputs[k] & 0x4 != 0
                    &&& reported(steps[k]) == Some(if inputs[k] & 0x102 != 0 {
                        Err::<u32, u32>(inputs[k])
                    } else {
                        Ok::<u32, u32>(inputs[k])
                    })
                }
        }),
{
    CommandExchange::initial(command, argument).lemma_run(inputs);
}

/// Where an acknowledged command stands.
#[derive(Clone, Copy, Debug, PartialEq, Eq, Structural)]
pub enum AckPhase {
    /// The command exchange is running.
    Exchange,
    /// The raw interrupt status has been written back; the response comes next.
    Acknowledged,
    /// The response has been read (and is discarded).
    Responded,
    /// Success has been reported.
    Succeeded,
    /// Failure has been reported.
    Failed,
}

/// A command whose successful completion is acknowledged: run the exchange;
/// on failure report `Err`; on success write the raw interrupt status back
/// to clear it, read (and drop) the response, and report `Ok`.
#[derive(Clone, Copy, Debug, PartialEq, Eq, Structural)]
pub struct AcknowledgedCommand {
    pub exchange: CommandExchange,
    pub phase: AckPhase,
}

impl AcknowledgedCommand {
    /// An acknowledged exchange of `command` with `argument` that has not started.
    pub open spec fn initial(command: u32, argument: u32) -> AcknowledgedCommand {
        AcknowledgedCommand {
            exchange: CommandExchange::initial(command, argument),
            phase: AckPhase::Exchange,
        }
    }

    /// Whether the machine still has steps to take.
    pub open spec fn active(self) -> bool {
        ||| self.phase is Exchange && !(self.exchange.phase is Finished)
        ||| self.phase is Acknowledged
        ||| self.phase is Responded
    }

    /// The next state and step, given the value that answered the last request.
    pub open spec fn next(self, input: u32) -> (AcknowledgedCommand, Step<Result<(), ()>>) {
        match self.phase {
            AckPhase::Exchange => {
                let (exchange, step) = self.exchange.next(input);
                match step {
                    Step::Io(request) => (AcknowledgedCommand { exchange, ..self }, Step::Io(request)),
                    Step::Done(Ok(status)) => (
                        AcknowledgedCommand { exchange, phase: AckPhase::Acknowledged },
                        Step::Io(Request::Write { offset: DWMMC_RAW_INTERRUPT_STATUS, value: status }),
                    ),
                    Step::Done(Err(_)) => (
                        AcknowledgedCommand { exchange, phase: AckPhase::Failed },
                        Step::Done(Err(())),
                    ),
                }
            },
            AckPhase::Acknowledged => (
                AcknowledgedCommand { phase: AckPhase::Responded, ..self },
                Step::Io(Request::Read { offset: DWMMC_RESPONSE }),
            ),
            AckPhase::Responded => (
                AcknowledgedCommand { phase: AckPhase::Succeeded, ..self },
                Step::Done(Ok(())),
            ),
            _ => (self, Step::Io(Request::Spin)),
        }
    }

    /// Advance by one step; `input` is the value of the register read last
    /// asked for, and is ignored after any other request.
    pub fn resume(&mut self, input: u32) -> (step: Step<Result<(), ()>>)
        requires
            old(self).active(),
        ensures
            (*final(self), step) == old(self).next(input),
    {
        match self.phase {
            AckPhase::Exchange => {
                match self.exchange.resume(input) {
                    Step::Io(request) => Step::Io(request),
                    Step::Done(Ok(status)) => {
                        self.phase = AckPhase::Acknowledged;
                        Step::Io(Request::Write { offset: DWMMC_RAW_INTERRUPT_STATUS, value: status })
                    },
                    Step::Done(Err(_)) => {
                        self.phase = AckPhase::Failed;
                        Step::Done(Err(()))
                    },
                }
            },
            AckPhase::Acknowledged => {
                self.phase = AckPhase::Responded;
                Step::Io(Request::Read { offset: DWMMC_RESPONSE })
            },
            AckPhase::Responded => {
                self.phase = AckPhase::Succeeded;
                Step::Done(Ok(()))
            },
            _ => Step::Io(Request::Spin),
        }
    }
}

impl AcknowledgedCommand {
    /// What one step of an acknowledged command does with its exchange's
    /// outcome: while the exchange runs its requests pass through unchanged;
    /// when it fails the command reports `Err`; when it succeeds with status
    /// `s`, `s` is written back to the raw interrupt status (0x44), then the
    /// response register (0x30) is read, and only then is `Ok` reported. The
    /// command and argument never change.
    pub proof fn lemma_step(self, input: u32)
        requires
            self.active(),
        ensures
            ({
                let (a, step) = self.next(input);
                let inner = self.exchange.next(input).1;
                &&& a.exchange.command == self.exchange.command
                &&& a.exchange.argument == self.exchange.argument
                &&& self.phase is Exchange ==> match inner {
                    Step::Io(request) => step == Step::<Result<(), ()>>::Io(request),
                    Step::Done(Ok(status)) => step == Step::<Result<(), ()>>::Io(
                        Request::Write { offset: 0x44, value: status },
                    ),
                    Step::Done(Err(_)) => step == Step::<Result<(), ()>>::Done(Err(())),
                }
                &&& self.phase is Acknowledged ==> step == Step::<Result<(), ()>>::Io(
                    Request::Read { offset: 0x30 },
                ) && a.phase is Responded
                &&& self.phase is Responded ==> step == Step::<Result<(), ()>>::Done(Ok(()))
                &&& reported(step) == Some(Ok::<(), ()>(())) ==> self.phase is Responded
                &&& self.phase is Exchange ==> (inner matches Step::Done(Ok(_)) ==> a.phase is Acknowledged)
            }),
    {
    }
}

} // verus!
