//! The per-execution-context staging buffer.
//!
//! Each kernel-scheduled thread owns exactly one of these; every channel
//! operation it issues marshals through it. A context is never shared: an
//! operation takes it exclusively for the whole marshal/operation/decode
//! sequence, so no concurrent operation on another context can touch it.

use crate::message::MSG_SIZE;
use vstd::prelude::*;

verus! {

/// The staging buffer of one execution context. Holds the outgoing message
/// until the kernel consumes it, then the incoming message that the same or
/// a paired operation delivered.
pub struct Context {
    buffer: Vec<u8>,
}

impl View for Context {
    type V = Seq<u8>;

    closed spec fn view(&self) -> Seq<u8> {
        self.buffer@
    }
}

impl Context {
    /// The buffer always spans exactly one staged message.
    pub open spec fn wf(&self) -> bool {
        self@.len() == MSG_SIZE
    }

    /// A fresh context with a zeroed staging buffer.
    pub fn new() -> (c: Context)
        ensures
            c.wf(),
            c@ == crate::message::zero_bytes(MSG_SIZE as nat),
    {
        let mut buffer: Vec<u8> = Vec::new();
        while buffer.len() < MSG_SIZE
            invariant
                buffer@.len() <= MSG_SIZE,
                buffer@ == crate::message::zero_bytes(buffer@.len()),
            decreases MSG_SIZE - buffer@.len(),
        {
            buffer.push(0u8);
            assert(buffer@ =~= crate::message::zero_bytes(buffer@.len()));
        }
        let c = Context { buffer };
        assert(c@ =~= crate::message::zero_bytes(MSG_SIZE as nat));
        c
    }

    /// Overwrites the staged bytes with `bytes`.
    pub fn stage(&mut self, bytes: Vec<u8>)
        requires
            bytes@.len() == MSG_SIZE,
        ensures
            final(self).wf(),
            final(self)@ == bytes@,
    {
        self.buffer = bytes;
    }

    /// The staged bytes, read without consuming or mutating them.
    pub fn staged(&self) -> (b: &Vec<u8>)
        ensures
            b@ == self@,
    {
        &self.buffer
    }
}

} // verus!
