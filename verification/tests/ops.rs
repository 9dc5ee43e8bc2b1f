use memcached_proto::{AuthResponse, Error, Extras, OpaqueSource, Opcode, Packet, QuietStep,
    Status, Version, all_ok, auth_response, cas_response, concat_request, counter_request,
    counter_response, flush_request, get_multi_collect, get_response, getk_response,
    increment_multi_collect, key_request, list_mechanisms_response, plain_request, push_be16,
    push_be32, push_be64, quiet_step, read_be16, read_be32, read_be64, sasl_request,
    simple_response, split_bytes, stat_entry, store_request, touch_request, version_response};

fn ok_response(opcode: Opcode, opaque: u32, cas: u64, extras: Extras, key: &[u8], val: &[u8]) ->
    Packet {
    Packet::response(opcode, Status::NoError, opaque, cas, extras, key.to_vec(), val.to_vec())
}

fn err_response(opcode: Opcode, status: Status, opaque: u32) -> Packet {
    Packet::response(opcode, status, opaque, 0, Extras::Empty, Vec::new(), Vec::new())
}

#[test]
fn big_endian_fields() {
    let mut buf = Vec::new();
    push_be16(&mut buf, 0xabcd);
    push_be32(&mut buf, 0x01020304);
    push_be64(&mut buf, 0x1122334455667788);
    assert_eq!(
        buf,
        vec![0xab, 0xcd, 0x01, 0x02, 0x03, 0x04, 0x11, 0x22, 0x33, 0x44, 0x55, 0x66, 0x77, 0x88]
    );
    assert_eq!(read_be16(buf.as_slice(), 0), 0xabcd);
    assert_eq!(read_be32(buf.as_slice(), 2), 0x01020304);
    assert_eq!(read_be64(buf.as_slice(), 6), 0x1122334455667788);
}

#[test]
fn status_mapping_success() {
    assert!(Status::NoError.ok_or(Some("ignored".to_string())).is_ok());
    assert!(Status::NoError.ok_or(None).is_ok());
}

#[test]
fn status_mapping_failure_carries_status_and_detail() {
    let statuses = [
        Status::KeyNotFound,
        Status::KeyExists,
        Status::ValueTooLarge,
        Status::OutOfMemory,
        Status::AuthenticationError,
    ];
    for status in statuses {
        match status.ok_or(Some("ctx".to_string())) {
            Err(Error::Proto(e)) => {
                assert_eq!(e.status(), status);
                assert_eq!(e.detail(), Some("ctx".to_string()));
                assert_eq!(e.desc, status.desc());
            },
            other => panic!("expected a protocol error, got {:?}", other),
        }
    }
}

#[test]
fn proto_error_message() {
    match Status::Busy.ok_or(Some("try later".to_string())) {
        Err(Error::Proto(e)) => assert_eq!(e.message(), "busy (try later)"),
        other => panic!("expected a protocol error, got {:?}", other),
    }
    match Status::Busy.ok_or(None) {
        Err(Error::Proto(e)) => assert_eq!(e.message(), "busy"),
        other => panic!("expected a protocol error, got {:?}", other),
    }
}

#[test]
fn store_request_scenario() {
    let p = store_request(Opcode::SetOp, b"foo", b"bar", 0, 0, 123, 0);
    assert_eq!(p.header.key_len, 3);
    assert_eq!(p.header.extras_len, 8);
    assert_eq!(p.header.body_len, 14);
    assert_eq!(p.header.opaque, 123);
    assert_eq!(p.extras, Extras::Store { flags: 0, expiration: 0 });
    assert_eq!(p.key, b"foo".to_vec());
    assert_eq!(p.val, b"bar".to_vec());
}

#[test]
fn request_builders_fill_the_right_shapes() {
    let g = key_request(Opcode::Get, b"k", 1);
    assert_eq!(g.header.opcode, Opcode::Get);
    assert_eq!(g.extras, Extras::Empty);
    assert_eq!(g.header.body_len, 1);

    let c = counter_request(Opcode::Increment, b"n", 5, 100, 0xffff_ffff, 2, 0);
    assert_eq!(c.header.extras_len, 20);
    assert_eq!(c.header.body_len, 21);
    assert_eq!(c.extras, Extras::Counter { amount: 5, initial: 100, expiration: 0xffff_ffff });

    let a = concat_request(Opcode::Append, b"k", b"tail", 3, 0);
    assert_eq!(a.extras, Extras::Empty);
    assert_eq!(a.header.body_len, 5);

    let t = touch_request(Opcode::Touch, b"k", 99, 4, 0);
    assert_eq!(t.extras, Extras::Touch { expiration: 99 });

    let f = flush_request(60, 5);
    assert_eq!(f.header.opcode, Opcode::Flush);
    assert_eq!(f.extras, Extras::Flush { expiration: 60 });
    assert_eq!(f.header.body_len, 4);

    let n = plain_request(Opcode::NoOp, 6);
    assert_eq!(n.header.body_len, 0);
    assert_eq!(n.extras, Extras::Empty);

    let s = sasl_request(Opcode::SASLAuth, b"PLAIN", b"\0user\0pass", 7);
    assert_eq!(s.key, b"PLAIN".to_vec());
    assert_eq!(s.val, b"\0user\0pass".to_vec());
    assert_eq!(s.header.body_len, 15);
}

#[test]
fn simple_response_maps_status() {
    let ok = ok_response(Opcode::SetOp, 0, 0, Extras::Empty, b"", b"");
    assert!(simple_response(&ok).is_ok());
    let nf = err_response(Opcode::Delete, Status::KeyNotFound, 0);
    match simple_response(&nf) {
        Err(Error::Proto(e)) => assert_eq!(e.status(), Status::KeyNotFound),
        other => panic!("expected a protocol error, got {:?}", other),
    }
    let mut weird = ok_response(Opcode::NoOp, 0, 0, Extras::Empty, b"", b"");
    weird.header.vbucket_id_or_status = 0x4242;
    assert!(matches!(simple_response(&weird), Err(Error::Malformed)));
}

#[test]
fn get_response_unpacks_value_flags_and_cas() {
    let p = ok_response(Opcode::Get, 0, 31337, Extras::Get { flags: 0xfeed }, b"", b"world");
    let (val, flags, cas) = get_response(&p).unwrap();
    assert_eq!(val, b"world".to_vec());
    assert_eq!(flags, 0xfeed);
    assert_eq!(cas, 31337);
    let missing = err_response(Opcode::Get, Status::KeyNotFound, 0);
    assert!(get_response(&missing).is_err());
}

#[test]
fn getk_response_echoes_the_key() {
    let p = ok_response(Opcode::GetK, 0, 1, Extras::Get { flags: 7 }, b"who", b"me");
    let (key, val, flags, cas) = getk_response(&p).unwrap();
    assert_eq!(key, b"who".to_vec());
    assert_eq!(val, b"me".to_vec());
    assert_eq!(flags, 7);
    assert_eq!(cas, 1);
}

#[test]
fn cas_response_returns_the_token() {
    let p = ok_response(Opcode::SetOp, 0, 4242, Extras::Empty, b"", b"");
    assert_eq!(cas_response(&p).unwrap(), 4242);
    let conflict = err_response(Opcode::SetOp, Status::KeyExists, 0);
    match cas_response(&conflict) {
        Err(Error::Proto(e)) => assert_eq!(e.status(), Status::KeyExists),
        other => panic!("expected a protocol error, got {:?}", other),
    }
}

#[test]
fn counter_response_reads_the_new_value() {
    let p = ok_response(
        Opcode::Increment,
        0,
        9,
        Extras::Empty,
        b"",
        &[0, 0, 0, 0, 0, 0, 0, 42],
    );
    assert_eq!(counter_response(&p).unwrap(), (42, 9));
    let short = ok_response(Opcode::Increment, 0, 0, Extras::Empty, b"", &[1, 2, 3]);
    assert!(matches!(counter_response(&short), Err(Error::Malformed)));
    let gone = err_response(Opcode::Increment, Status::KeyNotFound, 0);
    match counter_response(&gone) {
        Err(Error::Proto(e)) => assert_eq!(e.status(), Status::KeyNotFound),
        other => panic!("expected a protocol error, got {:?}", other),
    }
}

#[test]
fn version_response_parses_the_triple() {
    let p = ok_response(Opcode::Version, 0, 0, Extras::Empty, b"", b"1.6.12");
    assert_eq!(version_response(&p).unwrap(), Version { major: 1, minor: 6, patch: 12 });
    let bad = ok_response(Opcode::Version, 0, 0, Extras::Empty, b"", b"pizza");
    assert!(matches!(version_response(&bad), Err(Error::Malformed)));
}

#[test]
fn stat_entries_end_on_the_empty_key() {
    let p = ok_response(Opcode::Stat, 0, 0, Extras::Empty, b"pid", b"1234");
    assert_eq!(stat_entry(&p).unwrap(), Some(("pid".to_string(), "1234".to_string())));
    let end = ok_response(Opcode::Stat, 0, 0, Extras::Empty, b"", b"");
    assert_eq!(stat_entry(&end).unwrap(), None);
    let bad = ok_response(Opcode::Stat, 0, 0, Extras::Empty, &[0xff, 0xfe], b"x");
    assert!(matches!(stat_entry(&bad), Err(Error::Malformed)));
}

#[test]
fn split_bytes_keeps_empty_chunks() {
    let chunks = split_bytes(b"a  b", 0x20);
    assert_eq!(chunks, vec![b"a".to_vec(), b"".to_vec(), b"b".to_vec()]);
    assert_eq!(split_bytes(b"", 0x20), vec![b"".to_vec()]);
    assert_eq!(split_bytes(b"solo", 0x20), vec![b"solo".to_vec()]);
}

#[test]
fn list_mechanisms_splits_on_spaces() {
    let p = ok_response(Opcode::SASLListMechs, 0, 0, Extras::Empty, b"", b"PLAIN SCRAM-SHA-1");
    assert_eq!(
        list_mechanisms_response(&p).unwrap(),
        vec!["PLAIN".to_string(), "SCRAM-SHA-1".to_string()]
    );
}

#[test]
fn auth_start_unsupported_mechanism_fails() {
    let p = err_response(Opcode::SASLAuth, Status::AuthenticationError, 0);
    assert_eq!(auth_response(&p).unwrap(), AuthResponse::Failed);
}

#[test]
fn auth_continue_round_succeeds() {
    let challenge = err_response(Opcode::SASLAuth, Status::AuthenticationContinue, 0);
    let mut with_payload = challenge;
    with_payload.val = b"nonce".to_vec();
    assert_eq!(
        auth_response(&with_payload).unwrap(),
        AuthResponse::Continue(b"nonce".to_vec())
    );
    let done = ok_response(Opcode::SASLStep, 0, 0, Extras::Empty, b"", b"");
    assert_eq!(auth_response(&done).unwrap(), AuthResponse::Succeeded);
}

#[test]
fn auth_other_status_is_a_protocol_error() {
    let p = err_response(Opcode::SASLAuth, Status::TemporaryFailure, 0);
    match auth_response(&p) {
        Err(Error::Proto(e)) => assert_eq!(e.status(), Status::TemporaryFailure),
        other => panic!("expected a protocol error, got {:?}", other),
    }
}

#[test]
fn quiet_batch_all_successes_sees_only_the_noop() {
    // three SetQ requests and the closing NoOp
    let mut src = OpaqueSource::with_start(1);
    let _r1 = store_request(Opcode::SetQ, b"a", b"1", 0, 0, src.fresh(), 0);
    let _r2 = store_request(Opcode::SetQ, b"b", b"2", 0, 0, src.fresh(), 0);
    let _r3 = store_request(Opcode::SetQ, b"c", b"3", 0, 0, src.fresh(), 0);
    let noop_opaque = src.fresh();
    let _closing = plain_request(Opcode::NoOp, noop_opaque);
    // every quiet succeeded: the server answers with the NoOp response alone
    let observed = vec![ok_response(Opcode::NoOp, noop_opaque, 0, Extras::Empty, b"", b"")];
    let mut failures = Vec::new();
    let mut done = false;
    for p in &observed {
        match quiet_step(noop_opaque, p).unwrap() {
            QuietStep::Done => {
                done = true;
                break;
            },
            QuietStep::Failed { opaque, status } => failures.push((opaque, status)),
        }
    }
    assert!(done);
    assert_eq!(observed.len(), 1);
    assert!(failures.is_empty());
}

#[test]
fn quiet_batch_failure_is_correlated_by_opaque() {
    let noop_opaque = 4;
    // the second SetQ (opaque 2) failed; the caller sees its error, then the NoOp
    let observed = vec![
        err_response(Opcode::SetQ, Status::ValueTooLarge, 2),
        ok_response(Opcode::NoOp, noop_opaque, 0, Extras::Empty, b"", b""),
    ];
    let mut failures = Vec::new();
    let mut seen = 0;
    let mut done = false;
    for p in &observed {
        seen += 1;
        match quiet_step(noop_opaque, p).unwrap() {
            QuietStep::Done => {
                done = true;
                break;
            },
            QuietStep::Failed { opaque, status } => failures.push((opaque, status)),
        }
    }
    assert!(done);
    assert_eq!(seen, 2);
    assert_eq!(failures, vec![(2, Status::ValueTooLarge)]);
}

#[test]
fn get_multi_skips_absent_keys() {
    // looked up {a, b, c}; "b" is absent on the server, so only the hits answer
    let responses = vec![
        ok_response(Opcode::GetKQ, 1, 0, Extras::Get { flags: 5 }, b"a", b"1"),
        ok_response(Opcode::GetKQ, 3, 0, Extras::Get { flags: 6 }, b"c", b"3"),
    ];
    let hits = get_multi_collect(&responses);
    assert_eq!(hits.len(), 2);
    assert_eq!(hits[0], (b"a".to_vec(), b"1".to_vec(), 5));
    assert_eq!(hits[1], (b"c".to_vec(), b"3".to_vec(), 6));
    assert!(!hits.iter().any(|(k, _, _)| k.as_slice() == b"b"));
}

#[test]
fn all_ok_reports_the_first_failure() {
    let good = vec![
        ok_response(Opcode::SetOp, 1, 0, Extras::Empty, b"", b""),
        ok_response(Opcode::SetOp, 2, 0, Extras::Empty, b"", b""),
    ];
    assert!(all_ok(&good).is_ok());
    let mixed = vec![
        ok_response(Opcode::SetOp, 1, 0, Extras::Empty, b"", b""),
        err_response(Opcode::SetOp, Status::OutOfMemory, 2),
        err_response(Opcode::SetOp, Status::Busy, 3),
    ];
    match all_ok(&mixed) {
        Err(Error::Proto(e)) => assert_eq!(e.status(), Status::OutOfMemory),
        other => panic!("expected a protocol error, got {:?}", other),
    }
}

#[test]
fn increment_multi_collects_values_in_order() {
    let responses = vec![
        ok_response(Opcode::Increment, 1, 0, Extras::Empty, b"", &[0, 0, 0, 0, 0, 0, 0, 7]),
        ok_response(Opcode::Increment, 2, 0, Extras::Empty, b"", &[0, 0, 0, 0, 0, 0, 1, 0]),
    ];
    assert_eq!(increment_multi_collect(&responses).unwrap(), vec![7, 256]);
    let with_error = vec![
        ok_response(Opcode::Increment, 1, 0, Extras::Empty, b"", &[0, 0, 0, 0, 0, 0, 0, 7]),
        err_response(Opcode::Increment, Status::IncrOrDecrOnNonNumericValue, 2),
    ];
    match increment_multi_collect(&with_error) {
        Err(Error::Proto(e)) => assert_eq!(e.status(), Status::IncrOrDecrOnNonNumericValue),
        other => panic!("expected a protocol error, got {:?}", other),
    }
}

#[test]
fn opaque_source_steps_and_wraps() {
    let mut src = OpaqueSource::with_start(5);
    assert_eq!(src.fresh(), 5);
    assert_eq!(src.fresh(), 6);
    let mut at_edge = OpaqueSource::with_start(u32::MAX);
    assert_eq!(at_edge.fresh(), u32::MAX);
    assert_eq!(at_edge.fresh(), 0);
}
