//! Channel endpoints: capability names and the owning handles.

use crate::context::Context;
use crate::kernel::{
    call_spec, deliver_target, open_spec, link_spec, recv_spec, send_spec, transfer_spec, Kernel,
    KernelView,
};
use crate::message::{staged_size, staged_tag, Header, Msg};
use crate::result::Error;
use vstd::prelude::*;

verus! {

/// What a call on endpoint `c` leaves in its own context's staging buffer:
/// the reply when the call completes, the staged request otherwise.
pub open spec fn call_buffer(k: KernelView, c: int, req: Seq<u8>) -> Seq<u8> {
    match call_spec(k, c, req).1 {
        Ok(b) => b,
        Err(e) => req,
    }
}

/// Law: a call is atomic against a send from a second thread to the same
/// table. Each thread marshals through its own context — the operations
/// take exclusive hold of their own buffer and never touch another, so the
/// only conceivable bleed is through the table itself. This lemma closes
/// that path: when the send's delivery lands neither on the calling
/// endpoint `a` nor on the call's own delivery target, the kernel may
/// serialize the two in either order — a send slipped in before the call
/// changes neither the call's outcome nor one byte of what its context
/// ends up holding, and a call completed first leaves the send's outcome
/// exactly as it would have been.
pub proof fn lemma_call_send_no_bleed(k: KernelView, a: int, req: Seq<u8>, b: int, m: Seq<u8>)
    requires
        crate::kernel::view_wf(k),
        crate::kernel::in_table(k, a),
        crate::kernel::in_table(k, b),
        deliver_target(k, b) != a,
        deliver_target(k, b) != deliver_target(k, a),
    ensures
        call_spec(send_spec(k, b, m).0, a, req).1 == call_spec(k, a, req).1,
        call_buffer(send_spec(k, b, m).0, a, req) == call_buffer(k, a, req),
        send_spec(call_spec(k, a, req).0, b, m).1 == send_spec(k, b, m).1,
{
    let k1 = send_spec(k, b, m).0;
    assert(k1.slots.len() == k.slots.len());
    assert(k1.slots[a] == k.slots[a]);
    assert(deliver_target(k1, a) == deliver_target(k, a));
    assert(k1.slots[deliver_target(k, a)] == k.slots[deliver_target(k, a)]);
    let k2 = call_spec(k, a, req).0;
    assert(k2.slots.len() == k.slots.len());
    assert(k2.slots[b].present == k.slots[b].present);
    assert(k2.slots[b].closed == k.slots[b].closed);
    assert(k2.slots[b].link == k.slots[b].link);
    assert(deliver_target(k2, b) == deliver_target(k, b));
    assert(k2.slots[deliver_target(k, b)] == k.slots[deliver_target(k, b)]);
}

/// A capability identifier: the process-local numeric name of one channel
/// endpoint, opaque to its holder. Carries no lifecycle of its own — whether
/// the name is good is decided entirely by the capability table, surfacing
/// as an error when the name is used.
#[derive(Clone, Copy, Debug, PartialEq, Eq, Structural)]
pub struct CId {
    raw: isize,
}

impl View for CId {
    type V = int;

    closed spec fn view(&self) -> int {
        self.raw as int
    }
}

impl CId {
    /// Wraps a raw integer name, as process bootstrap does for well-known
    /// endpoints. Nothing is validated here.
    pub fn new(cid: isize) -> (c: CId)
        ensures
            c@ == cid as int,
    {
        CId { raw: cid }
    }

    /// The raw integer name, as handed across the system-call boundary.
    pub fn as_isize(&self) -> (v: isize)
        ensures
            v as int == self@,
    {
        self.raw
    }
}

/// The owning handle of one channel endpoint: it wraps exactly one [`CId`]
/// for the lifetime of the value, and every operation on the endpoint goes
/// through it.
#[derive(Debug)]
pub struct Channel {
    cid: CId,
}

impl View for Channel {
    type V = int;

    closed spec fn view(&self) -> int {
        self.cid@
    }
}

impl Channel {
    /// Wraps a capability obtained from a prior receive or from bootstrap,
    /// making the handle the capability's owner.
    pub fn from_cid(cid: CId) -> (ch: Channel)
        ensures
            ch@ == cid@,
    {
        Channel { cid }
    }

    /// The wrapped capability name.
    pub fn cid(&self) -> (c: CId)
        ensures
            c@ == self@,
    {
        self.cid
    }

    /// Asks the kernel for a fresh endpoint owned by the calling process,
    /// per [`open_spec`]: a new channel while the capability table is under
    /// its limit, `ResourceExhausted` once it is full.
    pub fn create(k: &mut Kernel) -> (r: Result<Channel, Error>)
        requires
            old(k).wf(),
        ensures
            final(k).wf(),
            final(k)@ == open_spec(old(k)@).0,
            (match r {
                Ok(ch) => open_spec(old(k)@).1 == Ok::<int, Error>(ch@),
                Err(e) => open_spec(old(k)@).1 == Err::<int, Error>(e),
            }),
    {
        match k.open() {
            Ok(c) => Ok(Channel::from_cid(c)),
            Err(e) => Err(e),
        }
    }

    /// Routes messages arriving on this endpoint onward to `other` with no
    /// intermediate copy in this process, per [`link_spec`];
    /// `InvalidChannel` if either endpoint is closed.
    pub fn link(&self, k: &mut Kernel, other: &Channel) -> (r: Result<(), Error>)
        requires
            old(k).wf(),
        ensures
            final(k).wf(),
            final(k)@ == link_spec(old(k)@, self@, other@).0,
            r == link_spec(old(k)@, self@, other@).1,
    {
        k.link(self.cid, other.cid)
    }

    /// Hands this channel's capability itself to whatever process receives
    /// the next message on `dest`, per [`transfer_spec`]. The handle is
    /// consumed: once the transfer succeeds no local use of the capability
    /// remains possible. On failure the untouched handle comes back with
    /// the error.
    pub fn transfer_to(self, k: &mut Kernel, dest: &Channel) -> (r: Result<(), (Channel, Error)>)
        requires
            old(k).wf(),
        ensures
            final(k).wf(),
            final(k)@ == transfer_spec(old(k)@, self@, dest@).0,
            (match r {
                Ok(u) => transfer_spec(old(k)@, self@, dest@).1 == Ok::<(), Error>(()),
                Err((ch, e)) => transfer_spec(old(k)@, self@, dest@).1 == Err::<(), Error>(e)
                    && ch@ == self@,
            }),
    {
        match k.transfer(self.cid, dest.cid) {
            Ok(u) => Ok(()),
            Err(e) => Err((self, e)),
        }
    }

    /// Marshals `m` into the calling context's staging buffer and enqueues
    /// it to this endpoint's delivery target, per [`send_spec`]: a one-way
    /// operation with no reply. `ChannelClosed` when a peer on the path is
    /// gone; `WouldBlock`, with nothing delivered, when the peer's queue is
    /// full.
    pub fn send<T: Msg>(&self, k: &mut Kernel, ctx: &mut Context, m: T) -> (r: Result<(), Error>)
        requires
            old(k).wf(),
            old(ctx).wf(),
        ensures
            final(k).wf(),
            final(ctx).wf(),
            final(ctx)@ == m.spec_encode(),
            final(k)@ == send_spec(old(k)@, self@, m.spec_encode()).0,
            r == send_spec(old(k)@, self@, m.spec_encode()).1,
    {
        proof {
            m.lemma_encode_wf();
        }
        ctx.stage(m.encode());
        k.send(self.cid, m.encode())
    }

    /// Blocks until a message is pending on this channel and stages it,
    /// without decoding, per [`recv_spec`]; the header can then be
    /// inspected before committing to a type. On any error the staging
    /// buffer is untouched.
    pub fn wait(&self, k: &mut Kernel, ctx: &mut Context) -> (r: Result<(), Error>)
        requires
            old(k).wf(),
            old(ctx).wf(),
        ensures
            final(k).wf(),
            final(ctx).wf(),
            final(k)@ == recv_spec(old(k)@, self@).0,
            (match r {
                Ok(u) => recv_spec(old(k)@, self@).1 == Ok::<Seq<u8>, Error>(final(ctx)@),
                Err(e) => recv_spec(old(k)@, self@).1 == Err::<Seq<u8>, Error>(e) && final(ctx)@
                    == old(ctx)@,
            }),
    {
        match k.recv(self.cid) {
            Ok(b) => {
                ctx.stage(b);
                Ok(())
            },
            Err(e) => Err(e),
        }
    }

    /// Reads only the header of whatever is staged in the calling context's
    /// buffer, consuming and mutating nothing. Used for tag dispatch before
    /// a typed decode.
    pub fn peek_header(&self, ctx: &Context) -> (h: Header)
        requires
            ctx.wf(),
        ensures
            h.tag == staged_tag(ctx@),
            h.size == staged_size(ctx@),
    {
        let b = ctx.staged();
        Header { tag: crate::message::read_u32_at(b, 0), size: crate::message::read_u32_at(b, 4) }
    }

    /// Decodes the staging buffer's current contents as `T`: a pure
    /// reinterpretation with no check of the staged tag against `T`. The
    /// caller must have confirmed the staged kind via [`Self::peek_header`]
    /// first; on a mismatched kind the value read back is well-typed
    /// garbage, not an error. [`Self::read_buffer_checked`] is the checked
    /// alternative.
    pub fn read_buffer<T: Msg>(&self, ctx: &Context) -> (m: T)
        requires
            ctx.wf(),
        ensures
            m == T::spec_decode(ctx@),
    {
        T::decode(ctx.staged())
    }

    /// Decodes the staging buffer's current contents as `T` after checking
    /// the staged header tag against `T`'s: the staged value exactly when
    /// the tags agree, `TypeMismatch` otherwise.
    pub fn read_buffer_checked<T: Msg>(&self, ctx: &Context) -> (r: Result<T, Error>)
        requires
            ctx.wf(),
        ensures
            (match r {
                Ok(m) => staged_tag(ctx@) == T::spec_tag() && m == T::spec_decode(ctx@),
                Err(e) => staged_tag(ctx@) != T::spec_tag() && e == Error::TypeMismatch,
            }),
    {
        let h = self.peek_header(ctx);
        if h.tag == T::tag() {
            Ok(T::decode(ctx.staged()))
        } else {
            Err(Error::TypeMismatch)
        }
    }

    /// Blocks until a message arrives and decodes it as `T`, per
    /// [`recv_spec`]: [`Self::wait`] then [`Self::read_buffer`], atomic
    /// with respect to the staging buffer — no other operation on this
    /// context can interleave.
    pub fn recv<T: Msg>(&self, k: &mut Kernel, ctx: &mut Context) -> (r: Result<T, Error>)
        requires
            old(k).wf(),
            old(ctx).wf(),
        ensures
            final(k).wf(),
            final(ctx).wf(),
            final(k)@ == recv_spec(old(k)@, self@).0,
            (match r {
                Ok(m) => recv_spec(old(k)@, self@).1 matches Ok(b) && final(ctx)@ == b && m
                    == T::spec_decode(b),
                Err(e) => recv_spec(old(k)@, self@).1 == Err::<Seq<u8>, Error>(e) && final(ctx)@
                    == old(ctx)@,
            }),
    {
        match k.recv(self.cid) {
            Ok(b) => {
                ctx.stage(b);
                Ok(T::decode(ctx.staged()))
            },
            Err(e) => Err(e),
        }
    }

    /// The RPC primitive, per [`call_spec`]: marshals `m`, and in a single
    /// kernel step sends the request and takes the matching reply back into
    /// the same buffer, decoded as `U`. Request and reply are paired with
    /// no observable gap: a call that cannot complete leaves the table
    /// untouched. `ChannelClosed` when the peer disappears before
    /// replying; on any error the buffer still holds the staged request.
    pub fn call<T: Msg, U: Msg>(&self, k: &mut Kernel, ctx: &mut Context, m: T) -> (r: Result<
        U,
        Error,
    >)
        requires
            old(k).wf(),
            old(ctx).wf(),
        ensures
            final(k).wf(),
            final(ctx).wf(),
            final(k)@ == call_spec(old(k)@, self@, m.spec_encode()).0,
            (match r {
                Ok(u) => call_spec(old(k)@, self@, m.spec_encode()).1 matches Ok(b) && final(ctx)@
                    == b && u == U::spec_decode(b),
                Err(e) => call_spec(old(k)@, self@, m.spec_encode()).1 == Err::<Seq<u8>, Error>(e)
                    && final(ctx)@ == m.spec_encode(),
            }),
    {
        proof {
            m.lemma_encode_wf();
        }
        ctx.stage(m.encode());
        match k.call(self.cid, m.encode()) {
            Ok(b) => {
                ctx.stage(b);
                Ok(U::decode(ctx.staged()))
            },
            Err(e) => Err(e),
        }
    }
}

} // verus!
