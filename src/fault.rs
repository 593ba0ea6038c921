use vstd::prelude::*;

verus! {

/// The kinds of failure that bring-up and the handshake can meet.
#[derive(Clone, Copy, Debug, PartialEq, Eq, Structural)]
pub enum Failure {
    /// Firmware missing or corrupt, or the radio did not answer.
    RadioInit,
    /// A broken invariant: the program cannot go on.
    Panic,
    Join,
    Connect,
    Write,
    Read,
    /// The response was not valid text.
    Decode,
}

/// How a failure is handled.
#[derive(Clone, Copy, Debug, PartialEq, Eq, Structural)]
pub enum Disposition {
    /// Stop all work for good.
    Halt,
    /// Try the same operation again.
    Retry,
    /// Report it and go on as if the stage had succeeded.
    Report,
}

pub open spec fn disposition_of(f: Failure) -> Disposition {
    match f {
        Failure::RadioInit | Failure::Panic => Disposition::Halt,
        Failure::Decode => Disposition::Report,
        _ => Disposition::Retry,
    }
}

/// Decides what a failure leads to: initialization faults and panics halt
/// the device, network failures are retried, and a response that is not
/// text is only reported.
pub fn panic_handler(f: Failure) -> (r: Disposition)
    ensures
        r == disposition_of(f),
        r is Halt <==> (f is RadioInit || f is Panic),
        r is Report <==> f is Decode,
{
    match f {
        Failure::RadioInit | Failure::Panic => Disposition::Halt,
        Failure::Decode => Disposition::Report,
        _ => Disposition::Retry,
    }
}

} // verus!
