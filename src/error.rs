use vstd::prelude::*;

verus! {

/// The error of a cyclic task: a transport fault, or an error of the task itself.
#[derive(Debug, Clone, Copy, PartialEq, Eq, Structural)]
pub enum EcError<T> {
    /// The Ethernet transceiver failed.
    Interface,
    /// The expected response did not arrive.
    LostPacket,
    /// The response is not the answer to the command that was sent.
    UnexpectedCommand,
    /// The response came back with another working counter than expected.
    UnexpectedWkc(u16),
    TaskSpecific(T),
}

} // verus!
