//! The capability table and message routing of the kernel boundary.
//!
//! The kernel behind the system-call boundary owns the capability table:
//! which endpoint names are allocated, which capabilities this process still
//! holds, where deliveries addressed to an endpoint are routed, and what is
//! queued on each endpoint. This module states that behavior as spec-level
//! transitions over [`KernelView`] and carries an executable table,
//! [`Kernel`], proved to follow them exactly; the channel operations are
//! verified against these transitions.
//!
//! The kernel suspends a caller that must wait — a send against a full
//! queue, a receive with nothing pending. A table value cannot suspend its
//! caller, so every transition that would block instead leaves the table
//! untouched and reports [`Error::WouldBlock`]; the caller retries once the
//! world has moved. Every other outcome is exactly the kernel's.

use crate::channel::CId;
use crate::message::MSG_SIZE;
use crate::result::Error;
use vstd::prelude::*;

verus! {

/// One slot of the capability table, as contracts see it.
#[verifier::ext_equal]
pub struct EndpointView {
    /// The capability is still held by this process. A transfer clears it;
    /// afterwards every local operation on the name is invalid.
    pub present: bool,
    /// The kernel has reported the peer of this endpoint gone.
    pub closed: bool,
    /// Deliveries addressed to this endpoint are forwarded to this slot
    /// without a local copy; `None` queues them here.
    pub link: Option<int>,
    /// Messages delivered and not yet received, oldest first.
    pub queue: Seq<Seq<u8>>,
}

/// The capability table as contracts see it.
#[verifier::ext_equal]
pub struct KernelView {
    /// The configured capability-table limit.
    pub cap: nat,
    /// The per-endpoint queue bound that backpressure enforces.
    pub queue_cap: nat,
    /// The allocated slots; a capability name is an index into them.
    pub slots: Seq<EndpointView>,
}

/// The slot a freshly allocated endpoint starts in.
pub open spec fn fresh_endpoint() -> EndpointView {
    EndpointView { present: true, closed: false, link: None, queue: seq![] }
}

/// `c` names a slot of the table.
pub open spec fn in_table(k: KernelView, c: int) -> bool {
    0 <= c < k.slots.len()
}

/// `c` names a capability this process still holds.
pub open spec fn is_open(k: KernelView, c: int) -> bool {
    in_table(k, c) && k.slots[c].present
}

/// `c` is held and its peer has not gone away.
pub open spec fn is_live(k: KernelView, c: int) -> bool {
    is_open(k, c) && !k.slots[c].closed
}

/// The slot where a delivery addressed to `c` lands.
pub open spec fn deliver_target(k: KernelView, c: int) -> int {
    match k.slots[c].link {
        Some(l) => l,
        None => c,
    }
}

/// Every table the kernel can reach: within the configured limit, links
/// inside the table, queues within the backpressure bound and holding only
/// full staged messages.
pub open spec fn view_wf(k: KernelView) -> bool {
    &&& k.slots.len() <= k.cap
    &&& k.cap <= isize::MAX as nat
    &&& forall|c: int|
        in_table(k, c) ==> {
            &&& (#[trigger] k.slots[c]).queue.len() <= k.queue_cap
            &&& (match k.slots[c].link {
                Some(l) => 0 <= l < k.slots.len(),
                None => true,
            })
            &&& forall|j: int|
                0 <= j < k.slots[c].queue.len() ==> (#[trigger] k.slots[c].queue[j]).len()
                    == MSG_SIZE
        }
}

/// Allocation: a fresh endpoint while the table is under its limit, and
/// `ResourceExhausted` once it is full.
pub open spec fn open_spec(k: KernelView) -> (KernelView, Result<int, Error>) {
    if k.slots.len() < k.cap {
        (
            KernelView { slots: k.slots.push(fresh_endpoint()), ..k },
            Ok(k.slots.len() as int),
        )
    } else {
        (k, Err(Error::ResourceExhausted))
    }
}

/// Closure notification: the kernel reports the peer of `c` gone.
pub open spec fn close_spec(k: KernelView, c: int) -> (KernelView, Result<(), Error>) {
    if is_open(k, c) {
        (
            KernelView {
                slots: k.slots.update(c, EndpointView { closed: true, ..k.slots[c] }),
                ..k
            },
            Ok(()),
        )
    } else {
        (k, Err(Error::InvalidChannel))
    }
}

/// Routing: deliveries addressed to `c` are henceforth forwarded to `d`.
/// Invalid unless both endpoints are held and their peers present.
pub open spec fn link_spec(k: KernelView, c: int, d: int) -> (KernelView, Result<(), Error>) {
    if is_live(k, c) && is_live(k, d) {
        (
            KernelView {
                slots: k.slots.update(c, EndpointView { link: Some(d), ..k.slots[c] }),
                ..k
            },
            Ok(()),
        )
    } else {
        (k, Err(Error::InvalidChannel))
    }
}

/// Capability transfer: the capability `c` leaves this process, to be handed
/// to whatever process receives the next message on `d`. The local name
/// stops working at once.
pub open spec fn transfer_spec(k: KernelView, c: int, d: int) -> (KernelView, Result<(), Error>) {
    if is_live(k, c) && is_live(k, d) {
        (
            KernelView {
                slots: k.slots.update(c, EndpointView { present: false, ..k.slots[c] }),
                ..k
            },
            Ok(()),
        )
    } else {
        (k, Err(Error::InvalidChannel))
    }
}

/// One-way enqueue of the staged message `m` addressed to `c`: it lands on
/// `c`'s delivery target. `InvalidChannel` for a name not held;
/// `ChannelClosed` when a peer on the path is gone; `WouldBlock`, with no
/// effect, when backpressure would suspend the caller.
pub open spec fn send_spec(k: KernelView, c: int, m: Seq<u8>) -> (KernelView, Result<(), Error>) {
    if !is_open(k, c) {
        (k, Err(Error::InvalidChannel))
    } else {
        let t = deliver_target(k, c);
        if k.slots[c].closed || !is_open(k, t) || k.slots[t].closed {
            (k, Err(Error::ChannelClosed))
        } else if k.slots[t].queue.len() >= k.queue_cap {
            (k, Err(Error::WouldBlock))
        } else {
            (
                KernelView {
                    slots: k.slots.update(
                        t,
                        EndpointView { queue: k.slots[t].queue.push(m), ..k.slots[t] },
                    ),
                    ..k
                },
                Ok(()),
            )
        }
    }
}

/// Blocking receive on `c`: the oldest pending delivery, `ChannelClosed`
/// once the peer is gone and nothing is pending, and otherwise — where the
/// kernel would suspend the caller — `WouldBlock` with no effect.
pub open spec fn recv_spec(k: KernelView, c: int) -> (KernelView, Result<Seq<u8>, Error>) {
    if !is_open(k, c) {
        (k, Err(Error::InvalidChannel))
    } else if k.slots[c].queue.len() > 0 {
        (
            KernelView {
                slots: k.slots.update(
                    c,
                    EndpointView { queue: k.slots[c].queue.drop_first(), ..k.slots[c] },
                ),
                ..k
            },
            Ok(k.slots[c].queue[0]),
        )
    } else if k.slots[c].closed {
        (k, Err(Error::ChannelClosed))
    } else {
        (k, Err(Error::WouldBlock))
    }
}

/// The request-reply primitive on `c`: in one step the request `m` lands on
/// `c`'s delivery target and the oldest delivery pending on `c` comes back
/// as the reply. Nothing happens unless both halves can: a call that would
/// wait for its reply, or stall on backpressure, leaves the table untouched
/// and reports `WouldBlock`, so no other operation can slip between the two
/// halves.
pub open spec fn call_spec(k: KernelView, c: int, m: Seq<u8>) -> (
    KernelView,
    Result<Seq<u8>, Error>,
) {
    if !is_open(k, c) {
        (k, Err(Error::InvalidChannel))
    } else {
        let t = deliver_target(k, c);
        if k.slots[c].closed || !is_open(k, t) || k.slots[t].closed {
            (k, Err(Error::ChannelClosed))
        } else if k.slots[c].queue.len() == 0 {
            (k, Err(Error::WouldBlock))
        } else {
            let reply = k.slots[c].queue[0];
            let k1 = KernelView {
                slots: k.slots.update(
                    c,
                    EndpointView { queue: k.slots[c].queue.drop_first(), ..k.slots[c] },
                ),
                ..k
            };
            if k1.slots[t].queue.len() >= k.queue_cap {
                (k, Err(Error::WouldBlock))
            } else {
                (
                    KernelView {
                        slots: k1.slots.update(
                            t,
                            EndpointView { queue: k1.slots[t].queue.push(m), ..k1.slots[t] },
                        ),
                        ..k1
                    },
                    Ok(reply),
                )
            }
        }
    }
}

/// The table after `n` allocations in a row.
pub open spec fn open_n(k: KernelView, n: nat) -> KernelView
    decreases n,
{
    if n == 0 {
        k
    } else {
        open_n(open_spec(k).0, (n - 1) as nat)
    }
}

/// Each of `n` allocations in a row hands out a fresh endpoint.
pub open spec fn opens_succeed(k: KernelView, n: nat) -> bool
    decreases n,
{
    n == 0 || (open_spec(k).1 is Ok && opens_succeed(open_spec(k).0, (n - 1) as nat))
}

/// Law: with `n` slots left under the configured capability-table limit,
/// `n` allocations in a row all succeed, and the very next one fails with
/// `ResourceExhausted`.
pub proof fn lemma_table_exhaustion(k: KernelView, n: nat)
    requires
        k.slots.len() + n == k.cap,
    ensures
        opens_succeed(k, n),
        open_spec(open_n(k, n)).1 == Err::<int, Error>(Error::ResourceExhausted),
    decreases n,
{
    if n > 0 {
        lemma_table_exhaustion(open_spec(k).0, (n - 1) as nat);
    }
}

/// Law: once a transfer of the capability `c` succeeds, every further local
/// operation on the original name — here with any other endpoint `e` and
/// any staged message `m` — fails with `InvalidChannel` and leaves the
/// table untouched: the capability is no longer locally usable.
pub proof fn lemma_transfer_revokes_local_name(k: KernelView, c: int, d: int, e: int, m: Seq<u8>)
    requires
        transfer_spec(k, c, d).1 is Ok,
    ensures
        ({
            let k2 = transfer_spec(k, c, d).0;
            &&& send_spec(k2, c, m) == (k2, Err::<(), Error>(Error::InvalidChannel))
            &&& recv_spec(k2, c) == (k2, Err::<Seq<u8>, Error>(Error::InvalidChannel))
            &&& call_spec(k2, c, m) == (k2, Err::<Seq<u8>, Error>(Error::InvalidChannel))
            &&& link_spec(k2, c, e) == (k2, Err::<(), Error>(Error::InvalidChannel))
            &&& transfer_spec(k2, c, e) == (k2, Err::<(), Error>(Error::InvalidChannel))
            &&& close_spec(k2, c) == (k2, Err::<(), Error>(Error::InvalidChannel))
        }),
{
}

/// Law: a receive or call blocked on an endpoint with nothing pending —
/// the table can only answer `WouldBlock` while the world stands still —
/// is released by the peer closing: after the closure notification both
/// return `ChannelClosed` rather than waiting forever.
pub proof fn lemma_close_unblocks(k: KernelView, c: int, m: Seq<u8>)
    requires
        is_live(k, c),
        k.slots[c].queue.len() == 0,
    ensures
        recv_spec(k, c).1 == Err::<Seq<u8>, Error>(Error::WouldBlock),
        close_spec(k, c).1 is Ok,
        ({
            let k2 = close_spec(k, c).0;
            &&& recv_spec(k2, c) == (k2, Err::<Seq<u8>, Error>(Error::ChannelClosed))
            &&& call_spec(k2, c, m) == (k2, Err::<Seq<u8>, Error>(Error::ChannelClosed))
        }),
{
}

/// One slot of the executable table.
struct Endpoint {
    present: bool,
    closed: bool,
    link: Option<usize>,
    queue: Vec<Vec<u8>>,
}

impl View for Endpoint {
    type V = EndpointView;

    closed spec fn view(&self) -> EndpointView {
        EndpointView {
            present: self.present,
            closed: self.closed,
            link: match self.link {
                Some(l) => Some(l as int),
                None => None,
            },
            queue: self.queue.deep_view(),
        }
    }
}

/// The executable capability table: every operation is proved to perform
/// exactly the spec transition of the same name on its view.
pub struct Kernel {
    cap: usize,
    queue_cap: usize,
    slots: Vec<Endpoint>,
}

impl View for Kernel {
    type V = KernelView;

    closed spec fn view(&self) -> KernelView {
        KernelView {
            cap: self.cap as nat,
            queue_cap: self.queue_cap as nat,
            slots: Seq::new(self.slots@.len(), |i: int| self.slots@[i]@),
        }
    }
}

impl Kernel {
    /// The table is in a state the kernel can reach.
    pub open spec fn wf(&self) -> bool {
        view_wf(self@)
    }

    /// A kernel configured with a capability-table limit of `cap` endpoints
    /// and a per-endpoint delivery queue bound of `queue_cap`.
    pub fn new(cap: usize, queue_cap: usize) -> (k: Kernel)
        requires
            cap <= isize::MAX as usize,
        ensures
            k.wf(),
            k@ == (KernelView { cap: cap as nat, queue_cap: queue_cap as nat, slots: seq![] }),
    {
        let k = Kernel { cap, queue_cap, slots: Vec::new() };
        proof {
            assert(k@ =~~= (KernelView {
                cap: cap as nat,
                queue_cap: queue_cap as nat,
                slots: seq![],
            }));
        }
        k
    }

    /// The slot index `c` names, when it names one.
    fn slot_index(&self, c: CId) -> (r: Option<usize>)
        ensures
            (match r {
                Some(i) => in_table(self@, c@) && i == c@,
                None => !in_table(self@, c@),
            }),
    {
        let v = c.as_isize();
        if v < 0 {
            None
        } else {
            let u = v as usize;
            if u < self.slots.len() {
                Some(u)
            } else {
                None
            }
        }
    }

    /// Allocates a fresh endpoint, per [`open_spec`].
    pub fn open(&mut self) -> (r: Result<CId, Error>)
        requires
            old(self).wf(),
        ensures
            final(self).wf(),
            final(self)@ == open_spec(old(self)@).0,
            (match r {
                Ok(c) => open_spec(old(self)@).1 == Ok::<int, Error>(c@),
                Err(e) => open_spec(old(self)@).1 == Err::<int, Error>(e),
            }),
    {
        if self.slots.len() < self.cap {
            let cid = self.slots.len();
            self.slots.push(Endpoint { present: true, closed: false, link: None, queue: Vec::new() });
            proof {
                assert(self@ =~~= open_spec(old(self)@).0);
            }
            Ok(CId::new(cid as isize))
        } else {
            Err(Error::ResourceExhausted)
        }
    }

    /// Marks the peer of `c` gone, per [`close_spec`]. This is the table's
    /// image of the closure the kernel reports when the process holding the
    /// other end of `c` drops it.
    pub fn close(&mut self, c: CId) -> (r: Result<(), Error>)
        requires
            old(self).wf(),
        ensures
            final(self).wf(),
            final(self)@ == close_spec(old(self)@, c@).0,
            r == close_spec(old(self)@, c@).1,
    {
        let idx = match self.slot_index(c) {
            Some(i) => i,
            None => {
                return Err(Error::InvalidChannel);
            },
        };
        if !self.slots[idx].present {
            return Err(Error::InvalidChannel);
        }
        self.slots[idx].closed = true;
        proof {
            assert(self@ =~~= close_spec(old(self)@, c@).0);
        }
        Ok(())
    }

    /// Routes deliveries addressed to `c` onward to `d`, per [`link_spec`].
    pub fn link(&mut self, c: CId, d: CId) -> (r: Result<(), Error>)
        requires
            old(self).wf(),
        ensures
            final(self).wf(),
            final(self)@ == link_spec(old(self)@, c@, d@).0,
            r == link_spec(old(self)@, c@, d@).1,
    {
        let idx = match self.slot_index(c) {
            Some(i) => i,
            None => {
                return Err(Error::InvalidChannel);
            },
        };
        let dst = match self.slot_index(d) {
            Some(i) => i,
            None => {
                return Err(Error::InvalidChannel);
            },
        };
        if !self.slots[idx].present || self.slots[idx].closed || !self.slots[dst].present
            || self.slots[dst].closed {
            return Err(Error::InvalidChannel);
        }
        self.slots[idx].link = Some(dst);
        proof {
            assert(self@ =~~= link_spec(old(self)@, c@, d@).0);
        }
        Ok(())
    }

    /// Hands the capability `c` away, per [`transfer_spec`]: the local name
    /// stops working at once.
    pub fn transfer(&mut self, c: CId, d: CId) -> (r: Result<(), Error>)
        requires
            old(self).wf(),
        ensures
            final(self).wf(),
            final(self)@ == transfer_spec(old(self)@, c@, d@).0,
            r == transfer_spec(old(self)@, c@, d@).1,
    {
        let idx = match self.slot_index(c) {
            Some(i) => i,
            None => {
                return Err(Error::InvalidChannel);
            },
        };
        let dst = match self.slot_index(d) {
            Some(i) => i,
            None => {
                return Err(Error::InvalidChannel);
            },
        };
        if !self.slots[idx].present || self.slots[idx].closed || !self.slots[dst].present
            || self.slots[dst].closed {
            return Err(Error::InvalidChannel);
        }
        self.slots[idx].present = false;
        proof {
            assert(self@ =~~= transfer_spec(old(self)@, c@, d@).0);
        }
        Ok(())
    }

    /// Enqueues the staged message `m` addressed to `c`, per [`send_spec`].
    pub fn send(&mut self, c: CId, m: Vec<u8>) -> (r: Result<(), Error>)
        requires
            old(self).wf(),
            m@.len() == MSG_SIZE,
        ensures
            final(self).wf(),
            final(self)@ == send_spec(old(self)@, c@, m@).0,
            r == send_spec(old(self)@, c@, m@).1,
    {
        let idx = match self.slot_index(c) {
            Some(i) => i,
            None => {
                return Err(Error::InvalidChannel);
            },
        };
        if !self.slots[idx].present {
            return Err(Error::InvalidChannel);
        }
        let t = match self.slots[idx].link {
            Some(l) => l,
            None => idx,
        };
        proof {
            assert(t == deliver_target(self@, c@));
            assert(in_table(self@, t as int));
        }
        if self.slots[idx].closed || !self.slots[t].present || self.slots[t].closed {
            return Err(Error::ChannelClosed);
        }
        if self.slots[t].queue.len() >= self.queue_cap {
            return Err(Error::WouldBlock);
        }
        self.slots[t].queue.push(m);
        proof {
            assert(self@ =~~= send_spec(old(self)@, c@, m@).0);
        }
        Ok(())
    }

    /// Takes the oldest delivery pending on `c`, per [`recv_spec`].
    pub fn recv(&mut self, c: CId) -> (r: Result<Vec<u8>, Error>)
        requires
            old(self).wf(),
        ensures
            final(self).wf(),
            final(self)@ == recv_spec(old(self)@, c@).0,
            (match r {
                Ok(b) => recv_spec(old(self)@, c@).1 == Ok::<Seq<u8>, Error>(b@) && b@.len()
                    == MSG_SIZE,
                Err(e) => recv_spec(old(self)@, c@).1 == Err::<Seq<u8>, Error>(e),
            }),
    {
        let idx = match self.slot_index(c) {
            Some(i) => i,
            None => {
                return Err(Error::InvalidChannel);
            },
        };
        if !self.slots[idx].present {
            return Err(Error::InvalidChannel);
        }
        if self.slots[idx].queue.len() > 0 {
            let b = self.slots[idx].queue.remove(0);
            proof {
                assert(self@ =~~= recv_spec(old(self)@, c@).0);
                assert(b@ == old(self)@.slots[c@].queue[0]);
            }
            Ok(b)
        } else if self.slots[idx].closed {
            Err(Error::ChannelClosed)
        } else {
            Err(Error::WouldBlock)
        }
    }

    /// The atomic request-reply step on `c`, per [`call_spec`]: the request
    /// `m` goes out and the pending reply comes back in one transition, or
    /// nothing happens at all.
    pub fn call(&mut self, c: CId, m: Vec<u8>) -> (r: Result<Vec<u8>, Error>)
        requires
            old(self).wf(),
            m@.len() == MSG_SIZE,
        ensures
            final(self).wf(),
            final(self)@ == call_spec(old(self)@, c@, m@).0,
            (match r {
                Ok(b) => call_spec(old(self)@, c@, m@).1 == Ok::<Seq<u8>, Error>(b@) && b@.len()
                    == MSG_SIZE,
                Err(e) => call_spec(old(self)@, c@, m@).1 == Err::<Seq<u8>, Error>(e),
            }),
    {
        let idx = match self.slot_index(c) {
            Some(i) => i,
            None => {
                return Err(Error::InvalidChannel);
            },
        };
        if !self.slots[idx].present {
            return Err(Error::InvalidChannel);
        }
        let t = match self.slots[idx].link {
            Some(l) => l,
            None => idx,
        };
        proof {
            assert(t == deliver_target(self@, c@));
            assert(in_table(self@, t as int));
        }
        if self.slots[idx].closed || !self.slots[t].present || self.slots[t].closed {
            return Err(Error::ChannelClosed);
        }
        if self.slots[idx].queue.len() == 0 {
            return Err(Error::WouldBlock);
        }
        let pending_at_target = if t == idx {
            self.slots[idx].queue.len() - 1
        } else {
            self.slots[t].queue.len()
        };
        if pending_at_target >= self.queue_cap {
            return Err(Error::WouldBlock);
        }
        let reply = self.slots[idx].queue.remove(0);
        self.slots[t].queue.push(m);
        proof {
            assert(self@ =~~= call_spec(old(self)@, c@, m@).0);
            assert(reply@ == old(self)@.slots[c@].queue[0]);
        }
        Ok(reply)
    }
}

} // verus!
