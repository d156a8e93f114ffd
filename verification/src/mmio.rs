use vstd::prelude::*;

verus! {

/// One thing a driver state machine asks its host to do.
///
/// Register offsets are relative to the device's base address. A `Read`
/// is answered with the value read, passed to the next `resume` call; every
/// other request is answered with an input that the machine ignores.
#[derive(Clone, Copy, Debug, PartialEq, Eq, Structural)]
pub enum Request {
    /// Read the 32-bit register at `offset` (after invalidating its cache line).
    Read { offset: usize },
    /// Write `value` to the 32-bit register at `offset` (then clean its cache line).
    Write { offset: usize, value: u32 },
    /// A spin-loop hint between two polls of a register.
    Spin,
    /// A full data memory barrier.
    DataBarrier,
    /// Flush the whole data cache.
    FlushDataCache,
    /// Read the data register into word `index` of the transfer buffer.
    ReadWord { index: u64 },
    /// Write word `index` of the transfer buffer to the data register.
    WriteWord { index: u64 },
}

/// What a driver state machine answers to one `resume` call.
#[derive(Debug, PartialEq, Eq, Structural)]
pub enum Step<T> {
    /// Perform this request, then resume the machine.
    Io(Request),
    /// The operation is over, with this outcome.
    Done(T),
}

/// The register and value that a step writes, if it is a register write.
pub open spec fn written<T>(step: Step<T>) -> Option<(usize, u32)> {
    match step {
        Step::Io(Request::Write { offset, value }) => Some((offset, value)),
        _ => None,
    }
}

/// The outcome that a step reports, if it reports one.
pub open spec fn reported<T>(step: Step<T>) -> Option<T> {
    match step {
        Step::Done(outcome) => Some(outcome),
        _ => None,
    }
}

/// The register that a step reads, if it is a register read.
pub open spec fn read_from<T>(step: Step<T>) -> Option<usize> {
    match step {
        Step::Io(Request::Read { offset }) => Some(offset),
        _ => None,
    }
}

} // verus!
