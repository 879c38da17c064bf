use vstd::prelude::*;

verus! {

/// Errors produced while servicing the balloon's virtqueues.
///
/// Host-side failures carry the operating-system error number that was
/// observed by the code performing the operation.
#[derive(Debug, Clone, Copy, PartialEq, Eq, Structural)]
pub enum Error {
    /// The guest handed over an address that could not be read or translated.
    GuestMemory(u64),
    /// The head descriptor of a chain is device-writable only.
    UnexpectedWriteOnlyDescriptor,
    /// A descriptor length is not a multiple of the record size.
    InvalidRequest,
    /// Punching a hole in a file-backed region failed.
    FallocateFail(i32),
    /// A memory-advice call failed.
    MadviseFail(i32),
    /// Writing to an event file descriptor failed.
    EventFdWriteFail(i32),
    /// A queue role reached a handler that does not serve it.
    InvalidQueueIndex(usize),
    /// Injecting an interrupt into the guest failed.
    FailedSignal(i32),
    /// A descriptor chain had no head descriptor.
    DescriptorChainTooShort,
    /// Posting a used-ring entry failed.
    QueueAddUsed,
    /// Iterating over the available ring failed.
    QueueIterator,
    /// The guest sent a statistic tag outside the known range.
    UnexpectedStatTag(u16),
    /// The statistics machinery was used before it was set up.
    MemoryStatistic,
}

} // verus!
