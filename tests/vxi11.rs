use vxi11_rpc::rpc::record::frame_record;
use vxi11_rpc::rpc::xdr_pack::pack_replyheader;
use vxi11_rpc::rpc::RpcError;
use vxi11_rpc::vxi11::xdr_pack::{
    pack_create_link_parms, pack_create_link_resp, pack_device_docmd_parms, pack_device_docmd_resp,
    pack_device_enable_srq_parms, pack_device_error, pack_device_generic_parms, pack_device_link,
    pack_device_lock_parms, pack_device_read_parms, pack_device_read_resp,
    pack_device_read_stb_resp, pack_device_remote_func_parms, pack_device_srq_parms,
    pack_device_write_parms, pack_device_write_resp,
};
use vxi11_rpc::vxi11::{
    CoreClient, DeviceError, Link, Vxi11Error, CLIENT_ID, CREATE_LINK, DEFAULT_LOCK_TIMEOUT,
    DESTROY_LINK, DEVICE_CORE_PROG, DEVICE_CORE_VERS, DEVICE_READ, DEVICE_WRITE,
};
use vxi11_rpc::xdr::Packer;

fn words(ws: &[u32]) -> Vec<u8> {
    ws.iter().flat_map(|w| w.to_be_bytes()).collect()
}

/// A device's reply to call `xid`, with `fill` packing the result.
fn device_reply(xid: u32, fill: impl FnOnce(&mut Packer)) -> Vec<u8> {
    let mut p = Packer::new();
    pack_replyheader(&mut p, xid, (0, &[])).unwrap();
    fill(&mut p);
    frame_record(&p.get_buf()).unwrap()
}

fn linked_client(link_id: i32) -> CoreClient {
    let mut c = CoreClient::new();
    c.start_create_link().unwrap();
    let r = device_reply(1, |p| pack_create_link_resp(p, 0, link_id, 0, 1024));
    assert_eq!(c.receive_create_link(&r), Ok(true));
    c
}

fn header(xid: u32, prc: u32) -> Vec<u8> {
    words(&[xid, 0, 2, DEVICE_CORE_PROG, DEVICE_CORE_VERS, prc, 0, 0, 0, 0])
}

#[test]
fn operations_need_a_link() {
    let mut c = CoreClient::new();
    assert_eq!(c.start_write(b"*IDN?"), Err(Vxi11Error::NoLink));
    assert_eq!(c.start_read(), Err(Vxi11Error::NoLink));
    assert_eq!(c.start_destroy_link(), Err(Vxi11Error::NoLink));
    assert_eq!(c.link(), None);
}

#[test]
fn create_link_twice_fails() {
    let mut c = linked_client(7);
    assert_eq!(c.start_create_link(), Err(Vxi11Error::AlreadyConnected));
}

#[test]
fn create_link_request_bytes() {
    let mut c = CoreClient::new();
    let req = c.start_create_link().unwrap();
    let mut body = header(1, CREATE_LINK);
    body.extend(words(&[CLIENT_ID as u32, 0, DEFAULT_LOCK_TIMEOUT, 5]));
    body.extend_from_slice(b"inst0\0\0\0");
    assert_eq!(req, frame_record(&body).unwrap());
}

#[test]
fn create_link_device_errors() {
    for (code, err) in [
        (1, DeviceError::SyntaxError),
        (3, DeviceError::DeviceNotAccessible),
        (9, DeviceError::OutOfResources),
        (11, DeviceError::DeviceLocked),
        (21, DeviceError::InvalidAddress),
        (2, DeviceError::Unknown(2)),
    ] {
        let mut c = CoreClient::new();
        c.start_create_link().unwrap();
        let r = device_reply(1, |p| pack_create_link_resp(p, code, 7, 0, 0));
        assert_eq!(c.receive_create_link(&r), Err(Vxi11Error::Device(err)));
        assert_eq!(c.link(), None);
    }
}

#[test]
fn end_to_end_identify() {
    let mut c = CoreClient::new();
    c.start_create_link().unwrap();
    let r = device_reply(1, |p| pack_create_link_resp(p, 0, 7, 0, 1024));
    assert_eq!(c.receive_create_link(&r), Ok(true));
    assert_eq!(c.link(), Some(Link { link_id: 7, abort_port: 0, max_recv_size: 1024 }));

    // ask = write then read
    let req = c.start_write(b"*IDN?").unwrap();
    let mut body = header(2, DEVICE_WRITE);
    body.extend(words(&[7, DEFAULT_LOCK_TIMEOUT, DEFAULT_LOCK_TIMEOUT, 8, 5]));
    body.extend_from_slice(b"*IDN?\0\0\0");
    assert_eq!(req, frame_record(&body).unwrap());
    let r = device_reply(2, |p| pack_device_write_resp(p, 0, 5));
    assert_eq!(c.receive_write(&r), Ok(true));

    let req = c.start_read().unwrap();
    let mut body = header(3, DEVICE_READ);
    body.extend(words(&[7, u32::MAX, DEFAULT_LOCK_TIMEOUT, DEFAULT_LOCK_TIMEOUT, 0, 0]));
    assert_eq!(req, frame_record(&body).unwrap());
    let r = device_reply(3, |p| pack_device_read_resp(p, 0, 2, b"ACME,MODEL1,SN1,FW1\n").unwrap());
    assert_eq!(c.receive_read(&r), Ok(Some(b"ACME,MODEL1,SN1,FW1\n".to_vec())));
}

#[test]
fn write_size_mismatch() {
    let mut c = linked_client(7);
    c.start_write(b"abc").unwrap();
    let r = device_reply(2, |p| pack_device_write_resp(p, 0, 2));
    assert_eq!(c.receive_write(&r), Err(Vxi11Error::SizeMismatch { sent: 3, confirmed: 2 }));
}

#[test]
fn write_device_errors() {
    for (code, err) in [
        (4, DeviceError::InvalidLinkId),
        (5, DeviceError::ParameterError),
        (11, DeviceError::DeviceLocked),
        (15, DeviceError::IoTimeout),
        (17, DeviceError::IoError),
        (23, DeviceError::Abort),
        (99, DeviceError::Unknown(99)),
    ] {
        let mut c = linked_client(7);
        c.start_write(b"x").unwrap();
        let r = device_reply(2, |p| pack_device_write_resp(p, code, 1));
        assert_eq!(c.receive_write(&r), Err(Vxi11Error::Device(err)));
    }
}

#[test]
fn read_reasons() {
    for (reason, want) in [
        (1, Ok(Some(b"hi".to_vec()))),
        (2, Ok(Some(b"hi".to_vec()))),
        (4, Ok(Some(b"hi".to_vec()))),
        (0, Err(Vxi11Error::NoReason)),
        (3, Err(Vxi11Error::ReasonCombination(3))),
        (6, Err(Vxi11Error::ReasonCombination(6))),
        (8, Err(Vxi11Error::ReservedReasonBits(8))),
        (-1, Err(Vxi11Error::ReservedReasonBits(-1))),
    ] {
        let mut c = linked_client(7);
        c.start_read().unwrap();
        let r = device_reply(2, |p| pack_device_read_resp(p, 0, reason, b"hi").unwrap());
        assert_eq!(c.receive_read(&r), want);
    }
}

#[test]
fn read_device_errors() {
    for (code, err) in [
        (4, DeviceError::InvalidLinkId),
        (5, DeviceError::Unknown(5)),
        (15, DeviceError::IoTimeout),
        (23, DeviceError::Abort),
    ] {
        let mut c = linked_client(7);
        c.start_read().unwrap();
        let r = device_reply(2, |p| pack_device_read_resp(p, code, 4, b"").unwrap());
        assert_eq!(c.receive_read(&r), Err(Vxi11Error::Device(err)));
    }
}

#[test]
fn destroy_link_closes() {
    let mut c = linked_client(7);
    let req = c.start_destroy_link().unwrap();
    let mut body = header(2, DESTROY_LINK);
    body.extend(words(&[7]));
    assert_eq!(req, frame_record(&body).unwrap());
    let r = device_reply(2, |p| pack_device_error(p, 0));
    assert_eq!(c.receive_destroy_link(&r), Ok(true));
    assert_eq!(c.link(), None);
    assert_eq!(c.start_write(b"x"), Err(Vxi11Error::NoLink));
    assert_eq!(c.start_create_link(), Err(Vxi11Error::LinkClosed));
}

#[test]
fn destroy_link_failure_keeps_link() {
    let mut c = linked_client(7);
    c.start_destroy_link().unwrap();
    let r = device_reply(2, |p| pack_device_error(p, 4));
    assert_eq!(c.receive_destroy_link(&r), Err(Vxi11Error::Device(DeviceError::InvalidLinkId)));
    assert!(c.link().is_some());
}

#[test]
fn stale_reply_then_current() {
    let mut c = linked_client(7);
    c.start_read().unwrap();
    let stale = device_reply(1, |p| pack_create_link_resp(p, 0, 7, 0, 0));
    assert_eq!(c.receive_read(&stale), Ok(None));
    let r = device_reply(2, |p| pack_device_read_resp(p, 0, 4, b"ok").unwrap());
    assert_eq!(c.receive_read(&r), Ok(Some(b"ok".to_vec())));
}

#[test]
fn future_reply_fails_operation() {
    let mut c = linked_client(7);
    c.start_read().unwrap();
    let r = device_reply(3, |p| pack_device_read_resp(p, 0, 4, b"ok").unwrap());
    assert_eq!(
        c.receive_read(&r),
        Err(Vxi11Error::Rpc(RpcError::FutureXid { expected: 2, got: 3 }))
    );
}

#[test]
fn parameter_encoders() {
    let mut p = Packer::new();
    pack_device_link(&mut p, -1);
    assert_eq!(p.get_buf(), words(&[u32::MAX]));

    let mut p = Packer::new();
    pack_create_link_parms(&mut p, 1, true, 2, "ab").unwrap();
    let mut want = words(&[1, 1, 2, 2]);
    want.extend_from_slice(&[b'a', b'b', 0, 0]);
    assert_eq!(p.get_buf(), want);

    let mut p = Packer::new();
    pack_device_write_parms(&mut p, 1, 2, 3, 4, &[9]).unwrap();
    let mut want = words(&[1, 2, 3, 4, 1]);
    want.extend_from_slice(&[9, 0, 0, 0]);
    assert_eq!(p.get_buf(), want);

    let mut p = Packer::new();
    pack_device_read_parms(&mut p, 1, 2, 3, 4, 5, 6);
    assert_eq!(p.get_buf(), words(&[1, 2, 3, 4, 5, 6]));

    let mut p = Packer::new();
    pack_device_generic_parms(&mut p, 1, 2, 3, 4);
    assert_eq!(p.get_buf(), words(&[1, 2, 3, 4]));

    let mut p = Packer::new();
    pack_device_remote_func_parms(&mut p, 1, 2, 3, 4, 5);
    assert_eq!(p.get_buf(), words(&[1, 2, 3, 4, 5]));

    let mut p = Packer::new();
    pack_device_enable_srq_parms(&mut p, 1, false, &[7, 7, 7, 7]);
    let mut want = words(&[1, 0, 4]);
    want.extend_from_slice(&[7, 7, 7, 7]);
    assert_eq!(p.get_buf(), want);

    let mut p = Packer::new();
    pack_device_lock_parms(&mut p, 1, 2, 3);
    assert_eq!(p.get_buf(), words(&[1, 2, 3]));

    let mut p = Packer::new();
    pack_device_docmd_parms(&mut p, 1, 2, 3, 4, 5, true, 6, &[]).unwrap();
    assert_eq!(p.get_buf(), words(&[1, 2, 3, 4, 5, 1, 6, 0]));
}

#[test]
fn result_encoders() {
    let mut p = Packer::new();
    pack_device_error(&mut p, 4);
    assert_eq!(p.get_buf(), words(&[4]));

    let mut p = Packer::new();
    pack_device_srq_parms(&mut p, &[1, 2]).unwrap();
    let mut want = words(&[2]);
    want.extend_from_slice(&[1, 2, 0, 0]);
    assert_eq!(p.get_buf(), want);

    let mut p = Packer::new();
    pack_create_link_resp(&mut p, 0, 7, 8, 9);
    assert_eq!(p.get_buf(), words(&[0, 7, 8, 9]));

    let mut p = Packer::new();
    pack_device_write_resp(&mut p, 0, 5);
    assert_eq!(p.get_buf(), words(&[0, 5]));

    let mut p = Packer::new();
    pack_device_read_resp(&mut p, 0, 4, &[1, 2, 3, 4, 5]).unwrap();
    let mut want = words(&[0, 4, 5]);
    want.extend_from_slice(&[1, 2, 3, 4, 5, 0, 0, 0]);
    assert_eq!(p.get_buf(), want);

    let mut p = Packer::new();
    pack_device_read_stb_resp(&mut p, 0, 0x40);
    assert_eq!(p.get_buf(), words(&[0, 0x40]));

    let mut p = Packer::new();
    pack_device_docmd_resp(&mut p, 0, &[1]).unwrap();
    let mut want = words(&[0, 1]);
    want.extend_from_slice(&[1, 0, 0, 0]);
    assert_eq!(p.get_buf(), want);
}
