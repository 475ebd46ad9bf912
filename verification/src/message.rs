//! The marshaling contract: fixed-layout messages and their headers.
//!
//! Every message kind shares one staging-buffer layout class of
//! [`MSG_SIZE`] bytes: a header of two little-endian `u32` words — the
//! kind's tag, then its body size — followed by the body and zero padding.
//! Encode and decode of a kind must agree byte for byte on this layout; the
//! [`Msg`] trait makes each kind prove that agreement (`lemma_round_trip`)
//! rather than merely promise it.

use vstd::bytes::*;
use vstd::prelude::*;

verus! {

/// Size in bytes of every staged message: header plus body plus padding.
pub const MSG_SIZE: usize = 32;

/// Size in bytes of the header: a `u32` tag, then a `u32` body size.
pub const HEADER_SIZE: usize = 8;

/// The header of a staged message: the kind tag used for dispatch, and the
/// byte count of the meaningful body that follows the header.
#[derive(Clone, Copy, Debug, PartialEq, Eq, Structural)]
pub struct Header {
    pub tag: u32,
    pub size: u32,
}

/// The tag word of a staged layout: its first four bytes, little-endian.
pub open spec fn staged_tag(b: Seq<u8>) -> u32 {
    spec_u32_from_le_bytes(b.subrange(0, 4))
}

/// The size word of a staged layout: bytes four to eight, little-endian.
pub open spec fn staged_size(b: Seq<u8>) -> u32 {
    spec_u32_from_le_bytes(b.subrange(4, 8))
}

/// `n` zero bytes.
pub open spec fn zero_bytes(n: nat) -> Seq<u8> {
    Seq::new(n, |i: int| 0u8)
}

/// The one layout every message kind stages: header words, body, padding to
/// [`MSG_SIZE`] bytes.
pub open spec fn layout(tag: u32, size: u32, body: Seq<u8>) -> Seq<u8> {
    spec_u32_to_le_bytes(tag) + spec_u32_to_le_bytes(size) + body + zero_bytes(
        (MSG_SIZE - HEADER_SIZE - body.len()) as nat,
    )
}

/// How each field of a [`layout`] reads back out of the staged bytes.
pub proof fn lemma_layout_parts(tag: u32, size: u32, body: Seq<u8>)
    requires
        body.len() <= MSG_SIZE - HEADER_SIZE,
    ensures
        layout(tag, size, body).len() == MSG_SIZE,
        staged_tag(layout(tag, size, body)) == tag,
        staged_size(layout(tag, size, body)) == size,
        layout(tag, size, body).subrange(
            HEADER_SIZE as int,
            HEADER_SIZE + body.len(),
        ) == body,
        forall|i: int|
            HEADER_SIZE + body.len() <= i < MSG_SIZE ==> layout(tag, size, body)[i] == 0u8,
{
    lemma_auto_spec_u32_to_from_le_bytes();
    let l = layout(tag, size, body);
    assert(l.subrange(0, 4) =~= spec_u32_to_le_bytes(tag));
    assert(l.subrange(4, 8) =~= spec_u32_to_le_bytes(size));
    assert(l.subrange(HEADER_SIZE as int, HEADER_SIZE + body.len()) =~= body);
}

/// Builds the staged bytes of one message: header words, `body`, zero
/// padding.
pub fn frame(tag: u32, size: u32, body: Vec<u8>) -> (r: Vec<u8>)
    requires
        body@.len() <= MSG_SIZE - HEADER_SIZE,
    ensures
        r@ == layout(tag, size, body@),
{
    proof {
        lemma_auto_spec_u32_to_from_le_bytes();
    }
    let ghost body_bytes = body@;
    let mut r = u32_to_le_bytes(tag);
    let mut size_word = u32_to_le_bytes(size);
    r.append(&mut size_word);
    let mut b = body;
    r.append(&mut b);
    let ghost framed = spec_u32_to_le_bytes(tag) + spec_u32_to_le_bytes(size) + body_bytes;
    assert(r@ =~= framed);
    while r.len() < MSG_SIZE
        invariant
            framed.len() == HEADER_SIZE + body_bytes.len() <= MSG_SIZE,
            framed.len() <= r@.len() <= MSG_SIZE,
            r@ == framed + zero_bytes((r@.len() - framed.len()) as nat),
        decreases MSG_SIZE - r@.len(),
    {
        r.push(0u8);
        assert(r@ =~= framed + zero_bytes((r@.len() - framed.len()) as nat));
    }
    assert(r@ =~= layout(tag, size, body_bytes));
    r
}

/// Reads the little-endian `u32` staged at byte offset `off`.
pub fn read_u32_at(b: &Vec<u8>, off: usize) -> (x: u32)
    requires
        off + 4 <= b@.len(),
    ensures
        x == spec_u32_from_le_bytes(b@.subrange(off as int, off + 4)),
{
    let n: usize = b.len();
    assert(off + 4 <= n);
    let w = vstd::slice::slice_subrange(b.as_slice(), off, off + 4);
    u32_from_le_bytes(w)
}

/// Reads the little-endian `u64` staged at byte offset `off`.
pub fn read_u64_at(b: &Vec<u8>, off: usize) -> (x: u64)
    requires
        off + 8 <= b@.len(),
    ensures
        x == spec_u64_from_le_bytes(b@.subrange(off as int, off + 8)),
{
    let n: usize = b.len();
    assert(off + 8 <= n);
    let w = vstd::slice::slice_subrange(b.as_slice(), off, off + 8);
    u64_from_le_bytes(w)
}

/// The contract every message kind satisfies: a fixed tag, a fixed body
/// size, and an encode/decode pair that agree byte for byte on the staged
/// layout. Decode is a pure reinterpretation of the staged bytes — it checks
/// nothing, as the fast dispatch path requires; the staged tag is what a
/// caller consults before committing to a kind.
pub trait Msg: Sized {
    /// The kind tag this message stages in its header.
    spec fn spec_tag() -> u32;

    /// The byte count of the meaningful body this kind stages.
    spec fn spec_size() -> u32;

    /// The exact bytes this value stages.
    spec fn spec_encode(&self) -> Seq<u8>;

    /// The value read back from staged bytes, whatever they hold.
    spec fn spec_decode(b: Seq<u8>) -> Self;

    /// The staged bytes are one full buffer and the header words are this
    /// kind's tag and size.
    proof fn lemma_encode_wf(&self)
        ensures
            self.spec_encode().len() == MSG_SIZE,
            staged_tag(self.spec_encode()) == Self::spec_tag(),
            staged_size(self.spec_encode()) == Self::spec_size(),
    ;

    /// Decoding what a value encodes yields that value back, for every
    /// value of the kind.
    proof fn lemma_round_trip(&self)
        ensures
            Self::spec_decode(self.spec_encode()) == *self,
    ;

    /// The kind tag, for header dispatch.
    fn tag() -> (t: u32)
        ensures
            t == Self::spec_tag(),
    ;

    /// Marshals this value into its staged bytes.
    fn encode(&self) -> (r: Vec<u8>)
        ensures
            r@ == self.spec_encode(),
    ;

    /// Reinterprets one full staged buffer as this kind.
    fn decode(b: &Vec<u8>) -> (m: Self)
        requires
            b@.len() == MSG_SIZE,
        ensures
            m == Self::spec_decode(b@),
    ;
}

/// Tag of a [`Ping`] message.
pub const TAG_PING: u32 = 1;

/// Tag of a [`Request`] message.
pub const TAG_REQUEST: u32 = 2;

/// Tag of a [`Reply`] message.
pub const TAG_REPLY: u32 = 3;

/// Request operation: ask a server for the capability to its shared buffer.
pub const OP_GET_BUFFER: u32 = 1;

/// A one-way notification carrying a sequence number.
#[derive(Clone, Copy, Debug, PartialEq, Eq, Structural)]
pub struct Ping {
    pub seq: u32,
}

impl Msg for Ping {
    open spec fn spec_tag() -> u32 {
        TAG_PING
    }

    open spec fn spec_size() -> u32 {
        4
    }

    open spec fn spec_encode(&self) -> Seq<u8> {
        layout(TAG_PING, 4, spec_u32_to_le_bytes(self.seq))
    }

    open spec fn spec_decode(b: Seq<u8>) -> Self {
        Ping { seq: spec_u32_from_le_bytes(b.subrange(HEADER_SIZE as int, HEADER_SIZE + 4)) }
    }

    proof fn lemma_encode_wf(&self) {
        lemma_auto_spec_u32_to_from_le_bytes();
        lemma_layout_parts(TAG_PING, 4, spec_u32_to_le_bytes(self.seq));
    }

    proof fn lemma_round_trip(&self) {
        lemma_auto_spec_u32_to_from_le_bytes();
        lemma_layout_parts(TAG_PING, 4, spec_u32_to_le_bytes(self.seq));
    }

    fn tag() -> u32 {
        TAG_PING
    }

    fn encode(&self) -> Vec<u8> {
        frame(TAG_PING, 4, u32_to_le_bytes(self.seq))
    }

    fn decode(b: &Vec<u8>) -> Self {
        Ping { seq: read_u32_at(b, HEADER_SIZE) }
    }
}

/// A request to a server, named by an operation code.
#[derive(Clone, Copy, Debug, PartialEq, Eq, Structural)]
pub struct Request {
    pub op: u32,
}

impl Msg for Request {
    open spec fn spec_tag() -> u32 {
        TAG_REQUEST
    }

    open spec fn spec_size() -> u32 {
        4
    }

    open spec fn spec_encode(&self) -> Seq<u8> {
        layout(TAG_REQUEST, 4, spec_u32_to_le_bytes(self.op))
    }

    open spec fn spec_decode(b: Seq<u8>) -> Self {
        Request { op: spec_u32_from_le_bytes(b.subrange(HEADER_SIZE as int, HEADER_SIZE + 4)) }
    }

    proof fn lemma_encode_wf(&self) {
        lemma_auto_spec_u32_to_from_le_bytes();
        lemma_layout_parts(TAG_REQUEST, 4, spec_u32_to_le_bytes(self.op));
    }

    proof fn lemma_round_trip(&self) {
        lemma_auto_spec_u32_to_from_le_bytes();
        lemma_layout_parts(TAG_REQUEST, 4, spec_u32_to_le_bytes(self.op));
    }

    fn tag() -> u32 {
        TAG_REQUEST
    }

    fn encode(&self) -> Vec<u8> {
        frame(TAG_REQUEST, 4, u32_to_le_bytes(self.op))
    }

    fn decode(b: &Vec<u8>) -> Self {
        Request { op: read_u32_at(b, HEADER_SIZE) }
    }
}

/// A server's reply, carrying the numeric name of a capability the receiver
/// may wrap and use as a channel of its own.
#[derive(Clone, Copy, Debug, PartialEq, Eq, Structural)]
pub struct Reply {
    pub cap: u64,
}

impl Msg for Reply {
    open spec fn spec_tag() -> u32 {
        TAG_REPLY
    }

    open spec fn spec_size() -> u32 {
        8
    }

    open spec fn spec_encode(&self) -> Seq<u8> {
        layout(TAG_REPLY, 8, spec_u64_to_le_bytes(self.cap))
    }

    open spec fn spec_decode(b: Seq<u8>) -> Self {
        Reply { cap: spec_u64_from_le_bytes(b.subrange(HEADER_SIZE as int, HEADER_SIZE + 8)) }
    }

    proof fn lemma_encode_wf(&self) {
        lemma_auto_spec_u64_to_from_le_bytes();
        lemma_layout_parts(TAG_REPLY, 8, spec_u64_to_le_bytes(self.cap));
    }

    proof fn lemma_round_trip(&self) {
        lemma_auto_spec_u64_to_from_le_bytes();
        lemma_layout_parts(TAG_REPLY, 8, spec_u64_to_le_bytes(self.cap));
    }

    fn tag() -> u32 {
        TAG_REPLY
    }

    fn encode(&self) -> Vec<u8> {
        frame(TAG_REPLY, 8, u64_to_le_bytes(self.cap))
    }

    fn decode(b: &Vec<u8>) -> Self {
        Reply { cap: read_u64_at(b, HEADER_SIZE) }
    }
}

} // verus!
