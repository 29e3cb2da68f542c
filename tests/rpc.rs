use vxi11_rpc::rpc::port_mapping::{
    decode_dump, Mapping, Protocol, TcpPortMapperClient, UdpPortMapperClient, PMAPPROC_DUMP,
    PMAPPROC_GETPORT, PMAP_PORT, PMAP_PROG, PMAP_VERS,
};
use vxi11_rpc::rpc::record::{frame_record, parse_record};
use vxi11_rpc::rpc::tcp_clients::TcpClient;
use vxi11_rpc::rpc::udp_clients::{BroadcastUdpClient, UdpClient};
use vxi11_rpc::rpc::xdr_pack::{
    pack_auth, pack_call_args, pack_callheader, pack_callheader_no_auth, pack_mapping,
    pack_replyheader,
};
use vxi11_rpc::rpc::xdr_unpack::{unpack_auth, unpack_replyheader};
use vxi11_rpc::rpc::{RpcError, IPPROTO_TCP, IPPROTO_UDP};
use vxi11_rpc::xdr::{CodecError, Packer, Unpacker};

fn words(ws: &[u32]) -> Vec<u8> {
    ws.iter().flat_map(|w| w.to_be_bytes()).collect()
}

fn reply(xid: u32, result: &[u32]) -> Vec<u8> {
    let mut p = Packer::new();
    pack_replyheader(&mut p, xid, (0, &[])).unwrap();
    for w in result {
        p.pack_u32(*w);
    }
    p.get_buf()
}

fn unpacker_of(bytes: &[u8]) -> Unpacker {
    let mut u = Unpacker::new();
    u.reset(bytes);
    u
}

#[test]
fn callheader_layout() {
    let mut p = Packer::new();
    pack_callheader_no_auth(&mut p, 7, 100000, 2, 3);
    assert_eq!(p.get_buf(), words(&[7, 0, 2, 100000, 2, 3, 0, 0, 0, 0]));
}

#[test]
fn callheader_with_auth() {
    let mut p = Packer::new();
    pack_callheader(&mut p, 1, 2, 3, 4, (1, &[0xaa]), (0, &[])).unwrap();
    let mut want = words(&[1, 0, 2, 2, 3, 4, 1, 1]);
    want.extend_from_slice(&[0xaa, 0, 0, 0]);
    want.extend(words(&[0, 0]));
    assert_eq!(p.get_buf(), want);
}

#[test]
fn auth_round_trip() {
    let mut p = Packer::new();
    pack_auth(&mut p, 5, b"xyz").unwrap();
    let mut u = unpacker_of(&p.get_buf());
    assert_eq!(unpack_auth(&mut u), Ok((5, b"xyz".to_vec())));
    assert!(u.all_data_consumed());
}

#[test]
fn mapping_and_call_args_layout() {
    let mut p = Packer::new();
    pack_mapping(&mut p, 1, 2, 6, 111);
    assert_eq!(p.get_buf(), words(&[1, 2, 6, 111]));
    let mut q = Packer::new();
    pack_call_args(&mut q, 9, 8, 7, &[1]).unwrap();
    let mut want = words(&[9, 8, 7, 1]);
    want.extend_from_slice(&[1, 0, 0, 0]);
    assert_eq!(q.get_buf(), want);
}

#[test]
fn replyheader_round_trip() {
    let mut u = unpacker_of(&reply(42, &[99]));
    assert_eq!(unpack_replyheader(&mut u), Ok((42, (0, vec![]))));
    assert_eq!(u.unpack_u32(), Ok(99));
}

#[test]
fn replyheader_errors() {
    let cases: Vec<(Vec<u32>, RpcError)> = vec![
        (vec![1, 0], RpcError::NotReply(0)),
        (vec![1, 1, 1, 0, 2, 4], RpcError::RpcMismatch { low: 2, high: 4 }),
        (vec![1, 1, 1, 1, 5], RpcError::AuthError(5)),
        (vec![1, 1, 1, 7], RpcError::DeniedUnknown(7)),
        (vec![1, 1, 2], RpcError::UnknownReplyStat(2)),
        (vec![1, 1, 0, 0, 0, 1], RpcError::ProgUnavail),
        (vec![1, 1, 0, 0, 0, 2, 1, 3], RpcError::ProgMismatch { low: 1, high: 3 }),
        (vec![1, 1, 0, 0, 0, 3], RpcError::CallFailed(3)),
        (vec![1, 1, 0, 0, 0, 4], RpcError::GarbageArgs),
        (vec![1, 1, 0, 0, 0], RpcError::Codec(CodecError::UnexpectedEof)),
    ];
    for (ws, err) in cases {
        let mut u = unpacker_of(&words(&ws));
        assert_eq!(unpack_replyheader(&mut u), Err(err));
    }
}

#[test]
fn frame_marks_single_last_fragment() {
    let framed = frame_record(&[1, 2, 3, 4, 5]).unwrap();
    assert_eq!(framed, vec![0x80, 0, 0, 5, 1, 2, 3, 4, 5]);
    assert_eq!(parse_record(&framed), Some((vec![1, 2, 3, 4, 5], 9)));
}

#[test]
fn fragment_reassembly() {
    // Fragments of 4, 1 and 0 bytes; only the last is marked final.
    let mut stream = vec![0, 0, 0, 4, 10, 20, 30, 40];
    stream.extend_from_slice(&[0, 0, 0, 1, 50]);
    stream.extend_from_slice(&[0x80, 0, 0, 0]);
    stream.extend_from_slice(&[0xee]);
    assert_eq!(parse_record(&stream), Some((vec![10, 20, 30, 40, 50], 17)));
}

#[test]
fn incomplete_record_waits() {
    assert_eq!(parse_record(&[0, 0, 0, 4, 10, 20]), None);
    assert_eq!(parse_record(&[0, 0, 0, 1, 10]), None);
    assert_eq!(parse_record(&[0x80, 0]), None);
}

#[test]
fn stream_call_is_one_record() {
    let mut c = TcpClient::new(PMAP_PROG, PMAP_VERS);
    c.start_call(PMAPPROC_GETPORT).unwrap();
    assert_eq!(c.lastxid, 1);
    let framed = c.framed_call().unwrap();
    let mut want = vec![0x80, 0, 0, 40];
    want.extend(words(&[1, 0, 2, PMAP_PROG, PMAP_VERS, PMAPPROC_GETPORT, 0, 0, 0, 0]));
    assert_eq!(framed, want);
}

#[test]
fn stale_xid_skipped() {
    let mut c = TcpClient::new(1, 1);
    c.start_call(0).unwrap();
    c.start_call(0).unwrap();
    assert_eq!(c.lastxid, 2);
    let mut bytes = frame_record(&reply(1, &[111])).unwrap();
    assert_eq!(c.receive(&bytes), Ok(false));
    bytes = frame_record(&reply(2, &[222])).unwrap();
    assert_eq!(c.receive(&bytes), Ok(true));
    assert_eq!(c.unpacker.unpack_u32(), Ok(222));
}

#[test]
fn stale_and_current_in_one_read() {
    let mut c = TcpClient::new(1, 1);
    for _ in 0..5 {
        c.start_call(0).unwrap();
    }
    let mut bytes = frame_record(&reply(4, &[1])).unwrap();
    bytes.extend(frame_record(&reply(5, &[2])).unwrap());
    assert_eq!(c.receive(&bytes), Ok(true));
    assert_eq!(c.unpacker.unpack_u32(), Ok(2));
}

#[test]
fn reply_split_across_reads() {
    let mut c = TcpClient::new(1, 1);
    c.start_call(0).unwrap();
    let bytes = frame_record(&reply(1, &[7])).unwrap();
    for b in &bytes[..bytes.len() - 1] {
        assert_eq!(c.receive(&[*b]), Ok(false));
    }
    assert_eq!(c.receive(&bytes[bytes.len() - 1..]), Ok(true));
    assert_eq!(c.unpacker.unpack_u32(), Ok(7));
}

#[test]
fn future_xid_fails() {
    let mut c = TcpClient::new(1, 1);
    c.start_call(0).unwrap();
    let bytes = frame_record(&reply(2, &[0])).unwrap();
    assert_eq!(c.receive(&bytes), Err(RpcError::FutureXid { expected: 1, got: 2 }));
}

#[test]
fn xid_counter_exhausted() {
    let mut c = TcpClient::new(1, 1);
    c.lastxid = u32::MAX;
    assert_eq!(c.start_call(0), Err(RpcError::XidExhausted));
    assert_eq!(c.lastxid, u32::MAX);
}

#[test]
fn datagram_reply_xid_must_match() {
    let mut c = UdpClient::new(1, 1);
    let mut p = Packer::new();
    c.start_call(&mut p, 0).unwrap();
    let mut u = Unpacker::new();
    assert_eq!(c.check_reply(&reply(1, &[5]), &mut u), Ok(()));
    assert_eq!(u.unpack_u32(), Ok(5));
    assert_eq!(c.check_reply(&reply(0, &[5]), &mut u), Err(RpcError::WrongXid { expected: 1, got: 0 }));
}

#[test]
fn broadcast_collects_matching_replies() {
    let mut c = BroadcastUdpClient::new(PMAP_PORT, PMAP_PROG, PMAP_VERS);
    c.start_call(PMAPPROC_DUMP).unwrap();
    let datagrams = vec![reply(1, &[0]), vec![1, 2, 3], reply(0, &[0]), reply(1, &[1, 9, 9, 6, 80, 0])];
    let got = c.collect_replies(&datagrams);
    assert_eq!(got, vec![words(&[0]), words(&[1, 9, 9, 6, 80, 0])]);
    assert_eq!(c.accept_reply(&[0, 0]), None);
}

#[test]
fn port_zero_is_not_registered() {
    let mut c = TcpPortMapperClient::new();
    let m = Mapping { program: 0x0607af, version: 1, protocol: Protocol::TCP, port: 0 };
    let req = c.start_get_port(&m).unwrap();
    let mut want = vec![0x80, 0, 0, 56];
    want.extend(words(&[1, 0, 2, PMAP_PROG, PMAP_VERS, PMAPPROC_GETPORT, 0, 0, 0, 0]));
    want.extend(words(&[0x0607af, 1, IPPROTO_TCP, 0]));
    assert_eq!(req, want);
    let bytes = frame_record(&reply(1, &[0])).unwrap();
    assert_eq!(c.receive_get_port(&bytes), Err(RpcError::NotRegistered));
}

#[test]
fn get_port_returns_port() {
    let mut c = TcpPortMapperClient::new();
    let m = Mapping { program: 0x0607af, version: 1, protocol: Protocol::TCP, port: 0 };
    c.start_get_port(&m).unwrap();
    let bytes = frame_record(&reply(1, &[1024])).unwrap();
    assert_eq!(c.receive_get_port(&bytes[..10]), Ok(None));
    assert_eq!(c.receive_get_port(&bytes[10..]), Ok(Some(1024)));
}

#[test]
fn get_port_trailing_data() {
    let mut c = TcpPortMapperClient::new();
    let m = Mapping { program: 1, version: 1, protocol: Protocol::UDP, port: 0 };
    c.start_get_port(&m).unwrap();
    let bytes = frame_record(&reply(1, &[1024, 5])).unwrap();
    assert_eq!(c.receive_get_port(&bytes), Err(RpcError::TrailingData));
}

#[test]
fn protocol_numbers() {
    assert_eq!(Protocol::TCP.to_u32(), IPPROTO_TCP);
    assert_eq!(Protocol::UDP.to_u32(), IPPROTO_UDP);
}

#[test]
fn dump_list_decoding() {
    let body = words(&[1, 100000, 2, 6, 111, 1, 0x0607af, 1, 17, 1024, 0]);
    let got = decode_dump(&body).unwrap();
    assert_eq!(
        got,
        vec![
            Mapping { program: 100000, version: 2, protocol: Protocol::TCP, port: 111 },
            Mapping { program: 0x0607af, version: 1, protocol: Protocol::UDP, port: 1024 },
        ]
    );
    assert_eq!(decode_dump(&words(&[0])), Ok(vec![]));
}

#[test]
fn dump_unknown_protocol_is_error() {
    let body = words(&[1, 100000, 2, 99, 111, 0]);
    assert_eq!(decode_dump(&body), Err(RpcError::UnknownProtocol(99)));
    assert_eq!(decode_dump(&words(&[1, 1, 1])), Err(RpcError::Codec(CodecError::UnexpectedEof)));
}

#[test]
fn udp_dump_exchange() {
    let mut c = UdpPortMapperClient::new();
    let req = c.start_dump().unwrap();
    assert_eq!(req, words(&[1, 0, 2, PMAP_PROG, PMAP_VERS, PMAPPROC_DUMP, 0, 0, 0, 0]));
    let got = c.finish_dump(&reply(1, &[1, 7, 1, 6, 700, 0])).unwrap();
    assert_eq!(got, vec![Mapping { program: 7, version: 1, protocol: Protocol::TCP, port: 700 }]);
}
