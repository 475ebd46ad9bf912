use capchan::message::{
    Msg, Ping, Reply, Request, HEADER_SIZE, MSG_SIZE, OP_GET_BUFFER, TAG_PING, TAG_REPLY,
    TAG_REQUEST,
};

#[test]
fn ping_round_trip() {
    for seq in [0u32, 1, 7, 0xffff_ffff, 0x0102_0304] {
        let m = Ping { seq };
        let bytes = m.encode();
        assert_eq!(bytes.len(), MSG_SIZE);
        assert_eq!(Ping::decode(&bytes), m);
    }
}

#[test]
fn request_round_trip() {
    for op in [0u32, OP_GET_BUFFER, 9999, u32::MAX] {
        let m = Request { op };
        assert_eq!(Request::decode(&m.encode()), m);
    }
}

#[test]
fn reply_round_trip() {
    for cap in [0u64, 1, 0x1122_3344_5566_7788, u64::MAX] {
        let m = Reply { cap };
        assert_eq!(Reply::decode(&m.encode()), m);
    }
}

#[test]
fn ping_exact_layout() {
    let bytes = Ping { seq: 0x0102_0304 }.encode();
    let mut expected = vec![0u8; MSG_SIZE];
    expected[0] = TAG_PING as u8; // tag, little-endian
    expected[4] = 4; // body size, little-endian
    expected[8] = 0x04;
    expected[9] = 0x03;
    expected[10] = 0x02;
    expected[11] = 0x01;
    assert_eq!(bytes, expected);
}

#[test]
fn reply_exact_layout() {
    let bytes = Reply { cap: 0x1122_3344_5566_7788 }.encode();
    assert_eq!(bytes[0], TAG_REPLY as u8);
    assert_eq!(bytes[4], 8);
    assert_eq!(
        &bytes[HEADER_SIZE..HEADER_SIZE + 8],
        &[0x88, 0x77, 0x66, 0x55, 0x44, 0x33, 0x22, 0x11]
    );
    assert!(bytes[HEADER_SIZE + 8..].iter().all(|&b| b == 0));
}

#[test]
fn tags_are_distinct() {
    assert_ne!(TAG_PING, TAG_REQUEST);
    assert_ne!(TAG_PING, TAG_REPLY);
    assert_ne!(TAG_REQUEST, TAG_REPLY);
    assert_eq!(Ping::tag(), TAG_PING);
    assert_eq!(Request::tag(), TAG_REQUEST);
    assert_eq!(Reply::tag(), TAG_REPLY);
}
