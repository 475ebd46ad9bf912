use capchan::channel::{CId, Channel};
use capchan::context::Context;
use capchan::kernel::Kernel;
use capchan::message::{Ping, Reply, Request, TAG_REPLY, OP_GET_BUFFER};
use capchan::result::Error;

#[test]
fn cid_wraps_raw_integer() {
    assert_eq!(CId::new(7).as_isize(), 7);
    assert_eq!(CId::new(-3).as_isize(), -3);
    let ch = Channel::from_cid(CId::new(12));
    assert_eq!(ch.cid().as_isize(), 12);
}

#[test]
fn create_exhausts_capability_table() {
    let mut k = Kernel::new(3, 4);
    for expected in 0..3isize {
        let ch = Channel::create(&mut k).unwrap();
        assert_eq!(ch.cid().as_isize(), expected);
    }
    assert_eq!(Channel::create(&mut k).err(), Some(Error::ResourceExhausted));
    // still full on a further try
    assert_eq!(Channel::create(&mut k).err(), Some(Error::ResourceExhausted));
}

#[test]
fn transfer_revokes_original_cid() {
    let mut k = Kernel::new(8, 4);
    let a = Channel::create(&mut k).unwrap();
    let dest = Channel::create(&mut k).unwrap();
    let original = a.cid().as_isize();
    a.transfer_to(&mut k, &dest).map_err(|(_, e)| e).unwrap();
    // the sending process's original name is no longer locally usable
    let revived = Channel::from_cid(CId::new(original));
    let mut ctx = Context::new();
    assert_eq!(
        revived.send(&mut k, &mut ctx, Ping { seq: 9 }).err(),
        Some(Error::InvalidChannel)
    );
    assert_eq!(
        revived.recv::<Ping>(&mut k, &mut ctx).err(),
        Some(Error::InvalidChannel)
    );
    assert_eq!(revived.link(&mut k, &dest).err(), Some(Error::InvalidChannel));
    assert_eq!(
        revived
            .call::<Request, Reply>(&mut k, &mut ctx, Request { op: 1 })
            .err(),
        Some(Error::InvalidChannel)
    );
}

#[test]
fn transfer_failure_returns_handle() {
    let mut k = Kernel::new(8, 4);
    let a = Channel::create(&mut k).unwrap();
    let dest = Channel::create(&mut k).unwrap();
    k.close(dest.cid()).unwrap();
    let (back, e) = a.transfer_to(&mut k, &dest).unwrap_err();
    assert_eq!(e, Error::InvalidChannel);
    // the untouched handle still works
    let mut ctx = Context::new();
    back.send(&mut k, &mut ctx, Ping { seq: 2 }).unwrap();
}

#[test]
fn link_forwards_to_other_endpoint() {
    let mut k = Kernel::new(8, 4);
    let x = Channel::create(&mut k).unwrap();
    let y = Channel::create(&mut k).unwrap();
    x.link(&mut k, &y).unwrap();
    // another process knows X by its well-known name
    let bx = Channel::from_cid(CId::new(x.cid().as_isize()));
    let mut ctx_b = Context::new();
    bx.send(&mut k, &mut ctx_b, Ping { seq: 1 }).unwrap();
    let mut ctx_a = Context::new();
    let got: Ping = y.recv(&mut k, &mut ctx_a).unwrap();
    assert_eq!(got, Ping { seq: 1 });
}

#[test]
fn link_rejects_closed_endpoint() {
    let mut k = Kernel::new(8, 4);
    let x = Channel::create(&mut k).unwrap();
    let y = Channel::create(&mut k).unwrap();
    k.close(y.cid()).unwrap();
    assert_eq!(x.link(&mut k, &y).err(), Some(Error::InvalidChannel));
}

#[test]
fn close_unblocks_pending_recv_and_call() {
    let mut k = Kernel::new(4, 2);
    let c = Channel::create(&mut k).unwrap();
    let mut ctx = Context::new();
    // nothing pending and the peer alive: the kernel would block here
    assert_eq!(c.recv::<Ping>(&mut k, &mut ctx).err(), Some(Error::WouldBlock));
    k.close(c.cid()).unwrap();
    assert_eq!(
        c.recv::<Ping>(&mut k, &mut ctx).err(),
        Some(Error::ChannelClosed)
    );
    assert_eq!(
        c.call::<Request, Reply>(&mut k, &mut ctx, Request { op: 1 }).err(),
        Some(Error::ChannelClosed)
    );
}

#[test]
fn send_reports_backpressure() {
    let mut k = Kernel::new(4, 1);
    let c = Channel::create(&mut k).unwrap();
    let mut ctx = Context::new();
    c.send(&mut k, &mut ctx, Ping { seq: 1 }).unwrap();
    assert_eq!(
        c.send(&mut k, &mut ctx, Ping { seq: 2 }).err(),
        Some(Error::WouldBlock)
    );
    // draining the queue clears the backpressure
    let got: Ping = c.recv(&mut k, &mut ctx).unwrap();
    assert_eq!(got, Ping { seq: 1 });
    c.send(&mut k, &mut ctx, Ping { seq: 3 }).unwrap();
}

#[test]
fn send_to_closed_peer_fails() {
    let mut k = Kernel::new(4, 2);
    let c = Channel::create(&mut k).unwrap();
    k.close(c.cid()).unwrap();
    let mut ctx = Context::new();
    assert_eq!(
        c.send(&mut k, &mut ctx, Ping { seq: 1 }).err(),
        Some(Error::ChannelClosed)
    );
}

#[test]
fn wait_then_header_dispatch() {
    let mut k = Kernel::new(4, 2);
    let c = Channel::create(&mut k).unwrap();
    let mut sender_ctx = Context::new();
    c.send(&mut k, &mut sender_ctx, Reply { cap: 0x1122_3344_5566_7788 })
        .unwrap();
    let mut ctx = Context::new();
    c.wait(&mut k, &mut ctx).unwrap();
    let h = c.peek_header(&ctx);
    assert_eq!(h.tag, TAG_REPLY);
    assert_eq!(h.size, 8);
    // peeking consumed nothing
    let again = c.peek_header(&ctx);
    assert_eq!(again, h);
    let got: Reply = c.read_buffer(&ctx);
    assert_eq!(got, Reply { cap: 0x1122_3344_5566_7788 });
}

#[test]
fn fresh_context_stages_zeroes() {
    let ctx = Context::new();
    let c = Channel::from_cid(CId::new(0));
    let h = c.peek_header(&ctx);
    assert_eq!(h.tag, 0);
    assert_eq!(h.size, 0);
}

#[test]
fn unchecked_decode_reinterprets_bytes() {
    // read_buffer checks nothing: decoding the staged Ping as a Request
    // silently reads the same body bytes. This is the documented hazard the
    // checked entry point exists for.
    let mut k = Kernel::new(4, 2);
    let c = Channel::create(&mut k).unwrap();
    let mut ctx = Context::new();
    c.send(&mut k, &mut ctx, Ping { seq: 0xAB }).unwrap();
    c.wait(&mut k, &mut ctx).unwrap();
    let confused: Request = c.read_buffer(&ctx);
    assert_eq!(confused.op, 0xAB);
}

#[test]
fn checked_decode_rejects_wrong_tag() {
    let mut k = Kernel::new(4, 2);
    let c = Channel::create(&mut k).unwrap();
    let mut ctx = Context::new();
    c.send(&mut k, &mut ctx, Ping { seq: 5 }).unwrap();
    c.wait(&mut k, &mut ctx).unwrap();
    assert_eq!(
        c.read_buffer_checked::<Reply>(&ctx).err(),
        Some(Error::TypeMismatch)
    );
    let ok: Ping = c.read_buffer_checked(&ctx).unwrap();
    assert_eq!(ok, Ping { seq: 5 });
}

#[test]
fn call_round_trip_grants_capability() {
    let mut k = Kernel::new(8, 4);
    let service = Channel::create(&mut k).unwrap();
    let client = Channel::create(&mut k).unwrap();
    let server = Channel::create(&mut k).unwrap();
    let reply_path = Channel::create(&mut k).unwrap();
    client.link(&mut k, &server).unwrap();
    reply_path.link(&mut k, &client).unwrap();

    // the server answers with the capability to its shared buffer
    let mut ctx_s = Context::new();
    reply_path
        .send(&mut k, &mut ctx_s, Reply { cap: service.cid().as_isize() as u64 })
        .unwrap();

    let mut ctx_c = Context::new();
    let reply: Reply = client
        .call(&mut k, &mut ctx_c, Request { op: OP_GET_BUFFER })
        .unwrap();
    let req: Request = server.recv(&mut k, &mut ctx_s).unwrap();
    assert_eq!(req, Request { op: OP_GET_BUFFER });

    // the granted capability is directly usable for further traffic
    let granted = Channel::from_cid(CId::new(reply.cap as isize));
    granted.send(&mut k, &mut ctx_c, Ping { seq: 5 }).unwrap();
    let p: Ping = granted.recv(&mut k, &mut ctx_c).unwrap();
    assert_eq!(p, Ping { seq: 5 });
}

#[test]
fn call_blocks_without_reply_and_delivers_nothing() {
    let mut k = Kernel::new(8, 4);
    let client = Channel::create(&mut k).unwrap();
    let server = Channel::create(&mut k).unwrap();
    client.link(&mut k, &server).unwrap();
    let mut ctx_c = Context::new();
    // no reply pending: the call would block, and atomically delivers nothing
    assert_eq!(
        client
            .call::<Request, Reply>(&mut k, &mut ctx_c, Request { op: 1 })
            .err(),
        Some(Error::WouldBlock)
    );
    let mut ctx_s = Context::new();
    assert_eq!(
        server.recv::<Request>(&mut k, &mut ctx_s).err(),
        Some(Error::WouldBlock)
    );
}

#[test]
fn call_and_send_use_independent_buffers() {
    let mut k = Kernel::new(8, 4);
    let client = Channel::create(&mut k).unwrap();
    let server = Channel::create(&mut k).unwrap();
    let reply_path = Channel::create(&mut k).unwrap();
    let other = Channel::create(&mut k).unwrap();
    client.link(&mut k, &server).unwrap();
    reply_path.link(&mut k, &client).unwrap();

    let mut ctx_s = Context::new();
    reply_path.send(&mut k, &mut ctx_s, Reply { cap: 7 }).unwrap();

    // first context: a call in flight; second context: an unrelated send
    let mut ctx_a = Context::new();
    let mut ctx_b = Context::new();
    let reply: Reply = client
        .call(&mut k, &mut ctx_a, Request { op: OP_GET_BUFFER })
        .unwrap();
    other.send(&mut k, &mut ctx_b, Ping { seq: 42 }).unwrap();
    assert_eq!(reply, Reply { cap: 7 });

    // each context still stages exactly what its own operation put there
    let from_a: Reply = client.read_buffer_checked(&ctx_a).unwrap();
    assert_eq!(from_a, Reply { cap: 7 });
    let from_b: Ping = other.read_buffer_checked(&ctx_b).unwrap();
    assert_eq!(from_b, Ping { seq: 42 });
    assert_eq!(
        other.read_buffer_checked::<Reply>(&ctx_b).err(),
        Some(Error::TypeMismatch)
    );
}
