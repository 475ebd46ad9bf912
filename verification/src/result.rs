//! The error taxonomy of the channel layer.

use vstd::prelude::*;

verus! {

/// Every fallible channel operation reports one of these; nothing is
/// swallowed, and the library itself never retries.
#[derive(Clone, Copy, Debug, PartialEq, Eq, Structural)]
pub enum Error {
    /// The kernel's capability table is full; no endpoint could be allocated.
    ResourceExhausted,
    /// The operation named a capability that is out of the table, or one whose
    /// capability has left this process.
    InvalidChannel,
    /// The peer of the endpoint has gone away.
    ChannelClosed,
    /// The operation could not complete without suspending the caller: the
    /// destination queue is full on a send, or nothing is pending on a
    /// receive. The kernel blocks the thread here; the table model surfaces
    /// the state to the caller instead, with the table left untouched.
    WouldBlock,
    /// A checked decode found a staged message whose header tag is not the
    /// requested type's tag.
    TypeMismatch,
}

} // verus!
