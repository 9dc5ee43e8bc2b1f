use memcached_proto::{Error, Extras, Magic, Opcode, Packet, PacketHeader, PacketRef, Status,
    SyncOps};

fn header_bytes(h: &PacketHeader) -> Vec<u8> {
    let mut buf = Vec::new();
    h.write_to(&mut buf);
    buf
}

#[test]
fn basics() {
    let header = PacketHeader::request(Opcode::Flush);
    let extras = Extras::Flush { expiration: 1234 };
    let key = "test:binary_protocol:hello";
    let val = "world";
    let packet = Packet::new(header, extras, key.as_bytes().to_vec(), val.as_bytes().to_vec());
    let mut buf: Vec<u8> = Vec::new();
    packet.write_to(&mut buf);
    let (packet_read, used) = Packet::read_from(buf.as_slice()).unwrap();
    assert_eq!(packet, packet_read);
    assert_eq!(used, buf.len());
}

#[test]
fn header_layout_is_fixed_and_big_endian() {
    let h = PacketHeader {
        magic: Magic::Request,
        opcode: Opcode::SetOp,
        key_len: 0x0102,
        extras_len: 0x08,
        data_type: 0,
        vbucket_id_or_status: 0x0304,
        body_len: 0x05060708,
        opaque: 0x090a0b0c,
        cas: 0x0102030405060708,
    };
    let buf = header_bytes(&h);
    assert_eq!(buf.len(), 24);
    assert_eq!(PacketHeader::size(), 24);
    assert_eq!(
        buf,
        vec![
            0x80, 0x01, 0x01, 0x02, 0x08, 0x00, 0x03, 0x04, 0x05, 0x06, 0x07, 0x08, 0x09, 0x0a,
            0x0b, 0x0c, 0x01, 0x02, 0x03, 0x04, 0x05, 0x06, 0x07, 0x08,
        ]
    );
}

#[test]
fn header_round_trips_through_its_bytes() {
    let h = PacketHeader {
        magic: Magic::Response,
        opcode: Opcode::GAT,
        key_len: 3,
        extras_len: 4,
        data_type: 0,
        vbucket_id_or_status: 1,
        body_len: 12,
        opaque: 77,
        cas: 99,
    };
    let buf = header_bytes(&h);
    let parsed = PacketHeader::parse(buf.as_slice()).unwrap();
    assert_eq!(parsed, h);
}

#[test]
fn malformed_magic_fails_decode() {
    let mut buf = vec![0u8; 24];
    buf[0] = 0x77;
    assert!(matches!(PacketHeader::parse(buf.as_slice()), Err(Error::Malformed)));
}

#[test]
fn unknown_opcode_byte_fails_decode() {
    let mut buf = vec![0u8; 24];
    buf[0] = 0x80;
    buf[1] = 0x1f;
    assert!(matches!(PacketHeader::parse(buf.as_slice()), Err(Error::Malformed)));
}

fn extras_bytes(e: &Extras) -> Vec<u8> {
    let mut buf = Vec::new();
    e.write_to(&mut buf);
    buf
}

#[test]
fn extras_round_trip_every_variant() {
    let cases: Vec<(Opcode, Extras)> = vec![
        (Opcode::NoOp, Extras::Empty),
        (Opcode::SetOp, Extras::Store { flags: 0xdead_beef, expiration: 60 }),
        (Opcode::AddQ, Extras::Store { flags: 1, expiration: 2 }),
        (Opcode::Get, Extras::Get { flags: 42 }),
        (
            Opcode::Increment,
            Extras::Counter { amount: 5, initial: 100, expiration: 0xffff_ffff },
        ),
        (Opcode::Flush, Extras::Flush { expiration: 30 }),
        (Opcode::Verbosity, Extras::Verbosity { verbosity: 2 }),
        (Opcode::Touch, Extras::Touch { expiration: 90 }),
        (Opcode::Stat, Extras::Unknown(vec![1, 2, 3])),
    ];
    for (opcode, extras) in cases {
        let buf = extras_bytes(&extras);
        assert_eq!(buf.len(), extras.len());
        let back = Extras::parse(opcode, buf.as_slice()).unwrap();
        assert_eq!(back, extras);
    }
}

#[test]
fn empty_extras_decode_to_empty_for_every_opcode() {
    let opcodes = [
        Opcode::Get,
        Opcode::SetOp,
        Opcode::Increment,
        Opcode::Flush,
        Opcode::Verbosity,
        Opcode::Touch,
        Opcode::Stat,
        Opcode::NoOp,
        Opcode::TapConnect,
    ];
    for opcode in opcodes {
        let empty: [u8; 0] = [];
        assert_eq!(Extras::parse(opcode, &empty).unwrap(), Extras::Empty);
    }
}

#[test]
fn truncated_shaped_extras_are_malformed() {
    assert!(matches!(Extras::parse(Opcode::SetOp, &[0, 0, 0]), Err(Error::Malformed)));
    assert!(matches!(Extras::parse(Opcode::Increment, &[0; 12]), Err(Error::Malformed)));
    assert!(matches!(Extras::parse(Opcode::Touch, &[0; 5]), Err(Error::Malformed)));
}

#[test]
fn touch_extras_recover_expiration() {
    let extras = Extras::Touch { expiration: 1234 };
    let buf = extras_bytes(&extras);
    assert_eq!(buf, vec![0x00, 0x00, 0x04, 0xd2]);
    match Extras::parse(Opcode::Touch, buf.as_slice()).unwrap() {
        Extras::Touch { expiration } => assert_eq!(expiration, 1234),
        other => panic!("wrong shape: {:?}", other),
    }
}

#[test]
fn extras_len_and_is_empty() {
    assert_eq!(Extras::Empty.len(), 0);
    assert!(Extras::Empty.is_empty());
    assert_eq!(Extras::Store { flags: 0, expiration: 0 }.len(), 8);
    assert_eq!(Extras::Counter { amount: 0, initial: 0, expiration: 0 }.len(), 20);
    assert_eq!(Extras::Get { flags: 0 }.len(), 4);
    assert_eq!(Extras::Unknown(vec![9, 9]).len(), 2);
    assert!(!Extras::Unknown(vec![9, 9]).is_empty());
}

#[test]
fn set_request_computes_header_lengths() {
    let p = Packet::request(
        Opcode::SetOp,
        0,
        0,
        0,
        Extras::Store { flags: 0, expiration: 0 },
        b"foo".to_vec(),
        b"bar".to_vec(),
    );
    assert_eq!(p.header.key_len, 3);
    assert_eq!(p.header.extras_len, 8);
    assert_eq!(p.header.body_len, 14);
    assert_eq!(p.header.magic, Magic::Request);
}

#[test]
fn builders_keep_the_body_length_invariant() {
    let p = Packet::request(
        Opcode::Append,
        7,
        11,
        13,
        Extras::Empty,
        b"k".to_vec(),
        b"value".to_vec(),
    );
    assert_eq!(
        p.header.body_len,
        p.header.key_len as u32 + p.header.extras_len as u32 + p.val.len() as u32
    );
    let q = Packet::response(
        Opcode::Get,
        Status::NoError,
        1,
        2,
        Extras::Get { flags: 9 },
        Vec::new(),
        b"payload".to_vec(),
    );
    assert_eq!(
        q.header.body_len,
        q.header.key_len as u32 + q.header.extras_len as u32 + q.val.len() as u32
    );
    let r = Packet::new(
        PacketHeader::request(Opcode::NoOp),
        Extras::Empty,
        b"Hello".to_vec(),
        Vec::new(),
    );
    assert_eq!(
        r.header.body_len,
        r.header.key_len as u32 + r.header.extras_len as u32 + r.val.len() as u32
    );
}

#[test]
fn packet_round_trips_through_its_bytes() {
    let p = Packet::request(
        Opcode::SetOp,
        0,
        0xaabbccdd,
        5,
        Extras::Store { flags: 2, expiration: 3 },
        b"hello".to_vec(),
        b"world".to_vec(),
    );
    let mut buf = Vec::new();
    p.write_to(&mut buf);
    assert_eq!(buf.len(), 24 + 18);
    let (q, used) = Packet::read_from(buf.as_slice()).unwrap();
    assert_eq!(used, buf.len());
    assert_eq!(q, p);
}

#[test]
fn packet_ref_writes_the_same_bytes() {
    let p = Packet::request(
        Opcode::Delete,
        0,
        1,
        0,
        Extras::Empty,
        b"gone".to_vec(),
        Vec::new(),
    );
    let mut owned = Vec::new();
    p.write_to(&mut owned);
    let r = PacketRef::new(&p.header, &p.extras, p.key.as_slice(), p.val.as_slice());
    let mut borrowed = Vec::new();
    r.write_to(&mut borrowed);
    assert_eq!(owned, borrowed);
}

#[test]
fn packet_read_rejects_contradictory_lengths() {
    // extras_len + key_len beyond body_len
    let mut buf = vec![0u8; 24];
    buf[0] = 0x80;
    buf[1] = 0x0a;
    buf[4] = 10;
    // body_len stays zero: 10 extras bytes cannot fit
    assert!(matches!(Packet::read_from(buf.as_slice()), Err(Error::Malformed)));
    // body_len larger than what the buffer holds
    let mut buf2 = vec![0u8; 24];
    buf2[0] = 0x81;
    buf2[1] = 0x00;
    buf2[11] = 5;
    assert!(matches!(Packet::read_from(buf2.as_slice()), Err(Error::Malformed)));
}

#[test]
fn packet_is_request_and_is_response() {
    let p = Packet::request(Opcode::NoOp, 0, 0, 0, Extras::Empty, Vec::new(), Vec::new());
    assert!(p.is_request());
    assert!(!p.is_response());
}

#[test]
fn packet_status_reads_the_status_field() {
    let p = Packet::response(
        Opcode::Get,
        Status::KeyNotFound,
        0,
        0,
        Extras::Empty,
        Vec::new(),
        Vec::new(),
    );
    assert_eq!(p.status(), Status::KeyNotFound);
    assert_eq!(p.try_status().unwrap(), Status::KeyNotFound);
    let mut bad = p;
    bad.header.vbucket_id_or_status = 0x7777;
    assert!(matches!(bad.try_status(), Err(Error::Malformed)));
}

#[test]
fn opcode_values_round_trip() {
    assert_eq!(Opcode::SetOp.value(), 0x01);
    assert_eq!(Opcode::Touch.value(), 0x1c);
    assert_eq!(Opcode::TabCheckPointEnd.value(), 0x47);
    assert_eq!(Opcode::from_u8(0x1c), Some(Opcode::Touch));
    assert_eq!(Opcode::from_u8(0x20), Some(Opcode::SASLListMechs));
    assert_eq!(Opcode::from_u8(0x1f), None);
    for b in 0u8..=0xff {
        if let Some(op) = Opcode::from_u8(b) {
            assert_eq!(op.value(), b);
        }
    }
}

#[test]
fn magic_values_round_trip() {
    assert_eq!(Magic::Request.value(), 0x80);
    assert_eq!(Magic::Response.value(), 0x81);
    assert_eq!(Magic::from_u8(0x80), Some(Magic::Request));
    assert_eq!(Magic::from_u8(0x81), Some(Magic::Response));
    assert_eq!(Magic::from_u8(0x00), None);
}

#[test]
fn status_values_round_trip() {
    assert_eq!(Status::NoError.value(), 0x0000);
    assert_eq!(Status::TemporaryFailure.value(), 0x0086);
    assert_eq!(Status::AuthenticationRequired.value(), 0x0020);
    assert_eq!(Status::from_u16(0x0002), Some(Status::KeyExists));
    assert_eq!(Status::from_u16(0x0042), None);
    for v in 0u16..=0x100 {
        if let Some(s) = Status::from_u16(v) {
            assert_eq!(s.value(), v);
        }
    }
}

#[test]
fn status_default_is_no_error() {
    assert_eq!(Status::default(), Status::NoError);
}

#[test]
fn status_descriptions() {
    assert_eq!(Status::NoError.desc(), "no error");
    assert_eq!(Status::KeyNotFound.desc(), "key not found");
    assert_eq!(Status::KeyExists.desc(), "key exists");
    assert_eq!(Status::Busy.desc(), "busy");
    assert_eq!(
        Status::AuthenticationFurtherStepRequired.desc(),
        "further authentication steps required"
    );
}

#[test]
fn io_error_variant_wraps_channel_failures() {
    let io = std::io::Error::new(std::io::ErrorKind::UnexpectedEof, "closed");
    assert!(matches!(Error::from_io(io), Error::Io(_)));
}

#[test]
fn packet_read_consumes_only_its_own_bytes() {
    let p = Packet::request(
        Opcode::GetK,
        0,
        9,
        0,
        Extras::Empty,
        b"key".to_vec(),
        Vec::new(),
    );
    let mut buf = Vec::new();
    p.write_to(&mut buf);
    let packet_len = buf.len();
    buf.extend_from_slice(b"trailing noise");
    let (q, used) = Packet::read_from(buf.as_slice()).unwrap();
    assert_eq!(used, packet_len);
    assert_eq!(q, p);
}

#[test]
fn oversized_shaped_extras_are_malformed() {
    assert!(matches!(Extras::parse(Opcode::SetOp, &[0; 10]), Err(Error::Malformed)));
    assert!(matches!(Extras::parse(Opcode::Flush, &[0; 6]), Err(Error::Malformed)));
}
