//! The VXI-11 core channel: one link to an instrument, and byte-oriented
//! write and read operations over it.

use vstd::prelude::*;
use vstd::string::*;

use crate::rpc::record::{record_bytes, MAX_FRAGMENT_LEN};
use crate::rpc::tcp_clients::{stream_wait, StreamWait, TcpClient};
use crate::rpc::xdr_pack::{callheader_no_auth_bytes, pack_callheader_no_auth};
use crate::rpc::RpcError;
use crate::xdr::{dec_i32, dec_opaque, dec_u32, opaque_fits, CodecError, Unpacker};
use crate::vxi11::xdr_pack::{
    create_link_parms_bytes, device_link_bytes, device_read_parms_bytes, device_write_parms_bytes,
    pack_create_link_parms, pack_device_link, pack_device_read_parms, pack_device_write_parms,
};

pub mod xdr_pack;

verus! {

pub const DEVICE_CORE_PROG: u32 = 0x0607af;
pub const DEVICE_CORE_VERS: u32 = 1;
pub const CREATE_LINK: u32 = 10;
pub const DEVICE_WRITE: u32 = 11;
pub const DEVICE_READ: u32 = 12;
pub const DEVICE_READSTB: u32 = 13;
pub const DEVICE_TRIGGER: u32 = 14;
pub const DEVICE_CLEAR: u32 = 15;
pub const DEVICE_REMOTE: u32 = 16;
pub const DEVICE_LOCAL: u32 = 17;
pub const DEVICE_LOCK: u32 = 18;
pub const DEVICE_UNLOCK: u32 = 19;
pub const DEVICE_ENABLE_SRQ: u32 = 20;
pub const DEVICE_DOCMD: u32 = 22;
pub const DESTROY_LINK: u32 = 23;
pub const CREATE_INTR_CHAN: u32 = 25;
pub const DESTROY_INTR_CHAN: u32 = 26;

pub const CLIENT_ID: i32 = 3333;
pub const DEFAULT_LOCK_TIMEOUT: u32 = 10000;

pub const OPERATION_FLAGS_END_ONLY: i32 = 8;

/// Read ended because the requested byte count was reached.
pub const REASON_REQCNT: i32 = 1;
/// Read ended because the termination character was seen.
pub const REASON_CHR: i32 = 2;
/// Read ended because the device signalled the end of its message.
pub const REASON_END: i32 = 4;

/// The device name every link is created for.
pub open spec fn device_name() -> Seq<u8> {
    seq![0x69u8, 0x6e, 0x73, 0x74, 0x30]
}

/// A link created on the device.
#[derive(Debug, Clone, Copy, PartialEq, Eq, Structural)]
pub struct Link {
    pub link_id: i32,
    pub abort_port: u32,
    pub max_recv_size: u32,
}

/// Where a client stands in the link lifecycle.
#[derive(Debug, Clone, Copy, PartialEq, Eq, Structural)]
pub enum LinkState {
    Unlinked,
    Linked(Link),
    Closed,
}

/// Errors a device reports in a procedure's result.
#[derive(Debug, Clone, Copy, PartialEq, Eq, Structural)]
pub enum DeviceError {
    SyntaxError,
    DeviceNotAccessible,
    OutOfResources,
    DeviceLocked,
    InvalidAddress,
    InvalidLinkId,
    ParameterError,
    IoTimeout,
    IoError,
    Abort,
    /// A code this procedure does not define.
    Unknown(i32),
}

/// Failures of a VXI-11 operation.
#[derive(Debug, Clone, Copy, PartialEq, Eq, Structural)]
pub enum Vxi11Error {
    /// The RPC exchange itself failed.
    Rpc(RpcError),
    /// The operation needs a link and there is none.
    NoLink,
    /// A link already exists.
    AlreadyConnected,
    /// The link was destroyed; this client cannot make another.
    LinkClosed,
    /// The device reported an error.
    Device(DeviceError),
    /// The device confirmed a byte count other than the one sent.
    SizeMismatch { sent: usize, confirmed: u32 },
    /// A read ended with no reason bit set.
    NoReason,
    /// A read ended with more than one reason bit set.
    ReasonCombination(i32),
    /// A read's reason had bits set that must be zero.
    ReservedReasonBits(i32),
}

pub open spec fn create_link_error(code: i32) -> DeviceError {
    if code == 1 {
        DeviceError::SyntaxError
    } else if code == 3 {
        DeviceError::DeviceNotAccessible
    } else if code == 9 {
        DeviceError::OutOfResources
    } else if code == 11 {
        DeviceError::DeviceLocked
    } else if code == 21 {
        DeviceError::InvalidAddress
    } else {
        DeviceError::Unknown(code)
    }
}

/// The errors of DEVICE_READ; DEVICE_WRITE adds `ParameterError`.
pub open spec fn io_error(code: i32, is_write: bool) -> DeviceError {
    if code == 4 {
        DeviceError::InvalidLinkId
    } else if code == 5 && is_write {
        DeviceError::ParameterError
    } else if code == 11 {
        DeviceError::DeviceLocked
    } else if code == 15 {
        DeviceError::IoTimeout
    } else if code == 17 {
        DeviceError::IoError
    } else if code == 23 {
        DeviceError::Abort
    } else {
        DeviceError::Unknown(code)
    }
}

pub open spec fn destroy_link_error(code: i32) -> DeviceError {
    if code == 4 {
        DeviceError::InvalidLinkId
    } else {
        DeviceError::Unknown(code)
    }
}

/// Whether a read's reason is acceptable: exactly one of the three bits.
pub open spec fn reason_error(reason: i32) -> Option<Vxi11Error> {
    if reason == REASON_REQCNT || reason == REASON_CHR || reason == REASON_END {
        None
    } else if reason == 0 {
        Some(Vxi11Error::NoReason)
    } else if 0 < reason < 8 {
        Some(Vxi11Error::ReasonCombination(reason))
    } else {
        Some(Vxi11Error::ReservedReasonBits(reason))
    }
}

/// `r` is the failure `e`.
pub open spec fn failed<T>(r: Result<T, Vxi11Error>, e: Vxi11Error) -> bool {
    r == Err::<T, Vxi11Error>(e)
}

pub open spec fn codec_err<T>(e: CodecError) -> Result<T, Vxi11Error> {
    Err(Vxi11Error::Rpc(RpcError::Codec(e)))
}

/// CREATE_LINK result: the link on error code 0.
pub open spec fn create_link_result(body: Seq<u8>) -> Result<Link, Vxi11Error> {
    match dec_i32(body) {
        Err(e) => codec_err(e),
        Ok((code, s1)) => match dec_i32(s1) {
            Err(e) => codec_err(e),
            Ok((link_id, s2)) => match dec_u32(s2) {
                Err(e) => codec_err(e),
                Ok((abort_port, s3)) => match dec_u32(s3) {
                    Err(e) => codec_err(e),
                    Ok((max_recv_size, _)) => if code == 0 {
                        Ok(Link { link_id, abort_port, max_recv_size })
                    } else {
                        Err(Vxi11Error::Device(create_link_error(code)))
                    },
                },
            },
        },
    }
}

/// DEVICE_WRITE result for `sent` bytes: the confirmed count is checked
/// before the error code.
pub open spec fn write_result(body: Seq<u8>, sent: usize) -> Result<(), Vxi11Error> {
    match dec_i32(body) {
        Err(e) => codec_err(e),
        Ok((code, s1)) => match dec_u32(s1) {
            Err(e) => codec_err(e),
            Ok((size, _)) => if size as int != sent as int {
                Err(Vxi11Error::SizeMismatch { sent, confirmed: size })
            } else if code != 0 {
                Err(Vxi11Error::Device(io_error(code, true)))
            } else {
                Ok(())
            },
        },
    }
}

/// DEVICE_READ result: the data, when the device reports no error and
/// exactly one reason.
pub open spec fn read_result(body: Seq<u8>) -> Result<Seq<u8>, Vxi11Error> {
    match dec_i32(body) {
        Err(e) => codec_err(e),
        Ok((code, s1)) => match dec_i32(s1) {
            Err(e) => codec_err(e),
            Ok((reason, s2)) => match dec_opaque(s2) {
                Err(e) => codec_err(e),
                Ok((data, _)) => if code != 0 {
                    Err(Vxi11Error::Device(io_error(code, false)))
                } else {
                    match reason_error(reason) {
                        Some(e) => Err(e),
                        None => Ok(data),
                    }
                },
            },
        },
    }
}

/// DESTROY_LINK result.
pub open spec fn destroy_link_result(body: Seq<u8>) -> Result<(), Vxi11Error> {
    match dec_i32(body) {
        Err(e) => codec_err(e),
        Ok((code, _)) => if code == 0 {
            Ok(())
        } else {
            Err(Vxi11Error::Device(destroy_link_error(code)))
        },
    }
}

/// The record that calls `prc` with arguments `args` as transaction `xid`.
pub open spec fn core_call(xid: u32, prc: u32, args: Seq<u8>) -> Seq<u8> {
    record_bytes(callheader_no_auth_bytes(xid, DEVICE_CORE_PROG, DEVICE_CORE_VERS, prc) + args)
}

fn codec<T>(r: Result<T, CodecError>) -> (o: Result<T, Vxi11Error>)
    ensures
        match r {
            Ok(v) => o == Ok::<T, Vxi11Error>(v),
            Err(e) => o == codec_err::<T>(e),
        },
{
    match r {
        Ok(v) => Ok(v),
        Err(e) => Err(Vxi11Error::Rpc(RpcError::Codec(e))),
    }
}

/// Reads a CREATE_LINK result.
pub fn decode_create_link(unpacker: &mut Unpacker) -> (r: Result<Link, Vxi11Error>)
    ensures
        r == create_link_result(old(unpacker)@),
{
    let error = codec(unpacker.unpack_i32())?;
    let link_id = codec(unpacker.unpack_i32())?;
    let abort_port = codec(unpacker.unpack_u32())?;
    let max_recv_size = codec(unpacker.unpack_u32())?;
    if error != 0 {
        return Err(Vxi11Error::Device(
            if error == 1 {
                DeviceError::SyntaxError
            } else if error == 3 {
                DeviceError::DeviceNotAccessible
            } else if error == 9 {
                DeviceError::OutOfResources
            } else if error == 11 {
                DeviceError::DeviceLocked
            } else if error == 21 {
                DeviceError::InvalidAddress
            } else {
                DeviceError::Unknown(error)
            },
        ));
    }
    Ok(Link { link_id, abort_port, max_recv_size })
}

fn device_io_error(code: i32, is_write: bool) -> (r: DeviceError)
    ensures
        r == io_error(code, is_write),
{
    if code == 4 {
        DeviceError::InvalidLinkId
    } else if code == 5 && is_write {
        DeviceError::ParameterError
    } else if code == 11 {
        DeviceError::DeviceLocked
    } else if code == 15 {
        DeviceError::IoTimeout
    } else if code == 17 {
        DeviceError::IoError
    } else if code == 23 {
        DeviceError::Abort
    } else {
        DeviceError::Unknown(code)
    }
}

/// Reads a DEVICE_WRITE result for a write of `sent` bytes.
pub fn decode_write(unpacker: &mut Unpacker, sent: usize) -> (r: Result<(), Vxi11Error>)
    ensures
        r == write_result(old(unpacker)@, sent),
{
    let error = codec(unpacker.unpack_i32())?;
    let size = codec(unpacker.unpack_u32())?;
    if size as u64 != sent as u64 {
        return Err(Vxi11Error::SizeMismatch { sent, confirmed: size });
    }
    if error != 0 {
        return Err(Vxi11Error::Device(device_io_error(error, true)));
    }
    Ok(())
}

/// Reads a DEVICE_READ result.
pub fn decode_read(unpacker: &mut Unpacker) -> (r: Result<Vec<u8>, Vxi11Error>)
    ensures
        match read_result(old(unpacker)@) {
            Ok(bytes) => r is Ok && r->Ok_0@ == bytes,
            Err(e) => r == Err::<Vec<u8>, Vxi11Error>(e),
        },
{
    let error = codec(unpacker.unpack_i32())?;
    let reason = codec(unpacker.unpack_i32())?;
    let data = codec(unpacker.unpack_variable_len_opaque())?;
    if error != 0 {
        return Err(Vxi11Error::Device(device_io_error(error, false)));
    }
    if reason == REASON_REQCNT || reason == REASON_CHR || reason == REASON_END {
        Ok(data)
    } else if reason == 0 {
        Err(Vxi11Error::NoReason)
    } else if 0 < reason && reason < 8 {
        Err(Vxi11Error::ReasonCombination(reason))
    } else {
        Err(Vxi11Error::ReservedReasonBits(reason))
    }
}

/// Reads a DESTROY_LINK result.
pub fn decode_destroy_link(unpacker: &mut Unpacker) -> (r: Result<(), Vxi11Error>)
    ensures
        r == destroy_link_result(old(unpacker)@),
{
    let error = codec(unpacker.unpack_i32())?;
    if error == 0 {
        Ok(())
    } else if error == 4 {
        Err(Vxi11Error::Device(DeviceError::InvalidLinkId))
    } else {
        Err(Vxi11Error::Device(DeviceError::Unknown(error)))
    }
}

/// What a client's behaviour depends on.
pub struct CoreView {
    pub link: LinkState,
    /// The transaction id of the latest call.
    pub xid: u32,
    /// Received bytes not yet part of a complete record.
    pub pending: Seq<u8>,
    /// The number of bytes in the latest write.
    pub sent: usize,
}

/// Protocol state of a VXI-11 core client: Unlinked, then Linked after a
/// successful CREATE_LINK, then Closed after a successful DESTROY_LINK.
///
/// Each operation is a `start_*` call, which checks the state and returns
/// the record to send, followed by `receive_*` calls with the bytes that
/// arrive, until one reports the outcome. The connection, and the port
/// lookup that finds it, belong to the caller.
pub struct CoreClient {
    client: TcpClient,
    link: LinkState,
    sent: usize,
}

impl View for CoreClient {
    type V = CoreView;

    closed spec fn view(&self) -> CoreView {
        CoreView {
            link: self.link,
            xid: self.client.lastxid,
            pending: self.client.pending@,
            sent: self.sent,
        }
    }
}

impl CoreClient {
    /// An unlinked client that has made no call.
    pub fn new() -> (r: Self)
        ensures
            r@.link == LinkState::Unlinked,
            r@.xid == 0,
            r@.pending == Seq::<u8>::empty(),
    {
        CoreClient {
            client: TcpClient::new(DEVICE_CORE_PROG, DEVICE_CORE_VERS),
            link: LinkState::Unlinked,
            sent: 0,
        }
    }

    /// The current link's identifier.
    fn get_link(&self) -> (r: Result<i32, Vxi11Error>)
        ensures
            match self@.link {
                LinkState::Linked(l) => r == Ok::<i32, Vxi11Error>(l.link_id),
                _ => r == Err::<i32, Vxi11Error>(Vxi11Error::NoLink),
            },
    {
        match self.link {
            LinkState::Linked(l) => Ok(l.link_id),
            _ => Err(Vxi11Error::NoLink),
        }
    }

    /// Takes the next transaction id and starts a call of `prc`.
    fn start(&mut self, prc: u32) -> (r: Result<(), Vxi11Error>)
        ensures
            final(self).link == old(self).link,
            final(self).sent == old(self).sent,
            final(self).client.pending == old(self).client.pending,
            old(self).client.lastxid == u32::MAX ==> r == Err::<(), Vxi11Error>(
                Vxi11Error::Rpc(RpcError::XidExhausted),
            ) && final(self).client.lastxid == old(self).client.lastxid,
            old(self).client.lastxid < u32::MAX ==> r is Ok && final(self).client.lastxid == old(
                self,
            ).client.lastxid + 1 && final(self).client.packer@ == callheader_no_auth_bytes(
                final(self).client.lastxid,
                DEVICE_CORE_PROG,
                DEVICE_CORE_VERS,
                prc,
            ),
    {
        if self.client.lastxid == u32::MAX {
            return Err(Vxi11Error::Rpc(RpcError::XidExhausted));
        }
        self.client.lastxid = self.client.lastxid + 1;
        self.client.packer.reset();
        pack_callheader_no_auth(
            &mut self.client.packer,
            self.client.lastxid,
            DEVICE_CORE_PROG,
            DEVICE_CORE_VERS,
            prc,
        );
        assert(self.client.packer@ =~= callheader_no_auth_bytes(
            self.client.lastxid,
            DEVICE_CORE_PROG,
            DEVICE_CORE_VERS,
            prc,
        ));
        Ok(())
    }

    /// The packed call as one record.
    fn framed(&self) -> (r: Result<Vec<u8>, Vxi11Error>)
        ensures
            self.client.packer@.len() <= MAX_FRAGMENT_LEN ==> r is Ok && r->Ok_0@ == record_bytes(
                self.client.packer@,
            ),
            self.client.packer@.len() > MAX_FRAGMENT_LEN ==> r == Err::<Vec<u8>, Vxi11Error>(
                Vxi11Error::Rpc(RpcError::CallTooLong),
            ),
    {
        match self.client.framed_call() {
            Ok(v) => Ok(v),
            Err(e) => Err(Vxi11Error::Rpc(e)),
        }
    }

    /// Feeds received bytes to the transport; `Ok(true)` once the reply to
    /// the latest call is in `client.unpacker`.
    fn feed(&mut self, data: &[u8]) -> (r: Result<bool, Vxi11Error>)
        ensures
            final(self).link == old(self).link,
            final(self).sent == old(self).sent,
            final(self).client.lastxid == old(self).client.lastxid,
            match stream_wait(old(self).client.pending@ + data@, old(self).client.lastxid) {
                StreamWait::Waiting(buf) => r == Ok::<bool, Vxi11Error>(false)
                    && final(self).client.pending@ == buf,
                StreamWait::Matched(body, rest) => r == Ok::<bool, Vxi11Error>(true)
                    && final(self).client.unpacker@ == body && final(self).client.pending@ == rest,
                StreamWait::Failed(e) => r == Err::<bool, Vxi11Error>(Vxi11Error::Rpc(e))
                    && final(self).client.pending@ == Seq::<u8>::empty(),
            },
    {
        match self.client.receive(data) {
            Ok(b) => Ok(b),
            Err(e) => Err(Vxi11Error::Rpc(e)),
        }
    }

    /// The link, while there is one.
    pub fn link(&self) -> (r: Option<Link>)
        ensures
            match self@.link {
                LinkState::Linked(l) => r == Some(l),
                _ => r is None,
            },
    {
        match self.link {
            LinkState::Linked(l) => Some(l),
            _ => None,
        }
    }

    /// Starts CREATE_LINK for device "inst0", with this client's id, no
    /// lock and the default lock timeout. Only an unlinked client may.
    pub fn start_create_link(&mut self) -> (r: Result<Vec<u8>, Vxi11Error>)
        ensures
            final(self)@.link == old(self)@.link,
            final(self)@.pending == old(self)@.pending,
            match old(self)@.link {
                LinkState::Linked(_) => failed(r, Vxi11Error::AlreadyConnected)
                    && final(self)@.xid == old(self)@.xid,
                LinkState::Closed => failed(r, Vxi11Error::LinkClosed)
                    && final(self)@.xid == old(self)@.xid,
                LinkState::Unlinked => if old(self)@.xid == u32::MAX {
                    failed(r, Vxi11Error::Rpc(RpcError::XidExhausted))
                } else {
                    &&& final(self)@.xid == old(self)@.xid + 1
                    &&& r is Ok
                    &&& r->Ok_0@ == core_call(
                        final(self)@.xid,
                        CREATE_LINK,
                        create_link_parms_bytes(
                            CLIENT_ID,
                            false,
                            DEFAULT_LOCK_TIMEOUT,
                            device_name(),
                        ),
                    )
                },
            },
    {
        match self.link {
            LinkState::Linked(_) => return Err(Vxi11Error::AlreadyConnected),
            LinkState::Closed => return Err(Vxi11Error::LinkClosed),
            LinkState::Unlinked => {},
        }
        self.start(CREATE_LINK)?;
        let device = "inst0";
        proof {
            reveal_strlit("inst0");
            is_ascii_spec_bytes(device);
            assert(device.spec_bytes() =~= device_name());
        }
        let _ = pack_create_link_parms(
            &mut self.client.packer,
            CLIENT_ID,
            false,
            DEFAULT_LOCK_TIMEOUT,
            device,
        );
        self.framed()
    }

    /// Takes bytes received for CREATE_LINK: `Ok(false)` while the reply is
    /// incomplete, `Ok(true)` once the link exists.
    pub fn receive_create_link(&mut self, data: &[u8]) -> (r: Result<bool, Vxi11Error>)
        ensures
            final(self)@.xid == old(self)@.xid,
            final(self)@.sent == old(self)@.sent,
            match stream_wait(old(self)@.pending + data@, old(self)@.xid) {
                StreamWait::Waiting(buf) => r matches Ok(false) && final(self)@.pending == buf
                    && final(self)@.link == old(self)@.link,
                StreamWait::Failed(e) => failed(r, Vxi11Error::Rpc(e))
                    && final(self)@.link == old(self)@.link,
                StreamWait::Matched(body, rest) => final(self)@.pending == rest
                    && match create_link_result(body) {
                    Ok(l) => r matches Ok(true) && final(self)@.link == LinkState::Linked(l),
                    Err(e) => failed(r, e) && final(self)@.link == old(self)@.link,
                },
            },
    {
        if !self.feed(data)? {
            return Ok(false);
        }
        let l = decode_create_link(&mut self.client.unpacker)?;
        self.link = LinkState::Linked(l);
        Ok(true)
    }

    /// Starts DEVICE_WRITE of `data` on the link, with the default timeouts
    /// and the END flag. Fails with `NoLink` unless linked.
    pub fn start_write(&mut self, data: &[u8]) -> (r: Result<Vec<u8>, Vxi11Error>)
        ensures
            final(self)@.link == old(self)@.link,
            final(self)@.pending == old(self)@.pending,
            match old(self)@.link {
                LinkState::Linked(l) => if old(self)@.xid == u32::MAX {
                    failed(r, Vxi11Error::Rpc(RpcError::XidExhausted))
                } else if !opaque_fits(data@) {
                    failed(r, Vxi11Error::Rpc(RpcError::Codec(CodecError::TooLong)))
                } else {
                    let args = device_write_parms_bytes(
                        l.link_id,
                        DEFAULT_LOCK_TIMEOUT,
                        DEFAULT_LOCK_TIMEOUT,
                        OPERATION_FLAGS_END_ONLY,
                        data@,
                    );
                    let call = callheader_no_auth_bytes(
                        final(self)@.xid,
                        DEVICE_CORE_PROG,
                        DEVICE_CORE_VERS,
                        DEVICE_WRITE,
                    ) + args;
                    &&& final(self)@.xid == old(self)@.xid + 1
                    &&& final(self)@.sent == data@.len()
                    &&& if call.len() <= MAX_FRAGMENT_LEN {
                        r is Ok && r->Ok_0@ == core_call(final(self)@.xid, DEVICE_WRITE, args)
                    } else {
                        failed(r, Vxi11Error::Rpc(RpcError::CallTooLong))
                    }
                },
                _ => failed(r, Vxi11Error::NoLink) && final(self)@.xid == old(self)@.xid,
            },
    {
        let link_id = self.get_link()?;
        self.start(DEVICE_WRITE)?;
        match pack_device_write_parms(
            &mut self.client.packer,
            link_id,
            DEFAULT_LOCK_TIMEOUT,
            DEFAULT_LOCK_TIMEOUT,
            OPERATION_FLAGS_END_ONLY,
            data,
        ) {
            Ok(()) => {},
            Err(e) => return Err(Vxi11Error::Rpc(RpcError::Codec(e))),
        }
        self.sent = data.len();
        self.framed()
    }

    /// Takes bytes received for DEVICE_WRITE: `Ok(false)` while the reply
    /// is incomplete, `Ok(true)` once the device confirmed every byte.
    pub fn receive_write(&mut self, data: &[u8]) -> (r: Result<bool, Vxi11Error>)
        ensures
            final(self)@.xid == old(self)@.xid,
            final(self)@.link == old(self)@.link,
            final(self)@.sent == old(self)@.sent,
            match stream_wait(old(self)@.pending + data@, old(self)@.xid) {
                StreamWait::Waiting(buf) => r matches Ok(false) && final(self)@.pending == buf,
                StreamWait::Failed(e) => failed(r, Vxi11Error::Rpc(e)),
                StreamWait::Matched(body, rest) => final(self)@.pending == rest
                    && match write_result(body, old(self)@.sent) {
                    Ok(()) => r matches Ok(true),
                    Err(e) => failed(r, e),
                },
            },
    {
        if !self.feed(data)? {
            return Ok(false);
        }
        decode_write(&mut self.client.unpacker, self.sent)?;
        Ok(true)
    }

    /// Starts DEVICE_READ on the link, asking for as many bytes as the
    /// device will give, with the default timeouts, no flags and no
    /// termination character. Fails with `NoLink` unless linked.
    pub fn start_read(&mut self) -> (r: Result<Vec<u8>, Vxi11Error>)
        ensures
            final(self)@.link == old(self)@.link,
            final(self)@.pending == old(self)@.pending,
            final(self)@.sent == old(self)@.sent,
            match old(self)@.link {
                LinkState::Linked(l) => if old(self)@.xid == u32::MAX {
                    failed(r, Vxi11Error::Rpc(RpcError::XidExhausted))
                } else {
                    &&& final(self)@.xid == old(self)@.xid + 1
                    &&& r is Ok
                    &&& r->Ok_0@ == core_call(
                        final(self)@.xid,
                        DEVICE_READ,
                        device_read_parms_bytes(
                            l.link_id,
                            u32::MAX,
                            DEFAULT_LOCK_TIMEOUT,
                            DEFAULT_LOCK_TIMEOUT,
                            0,
                            0,
                        ),
                    )
                },
                _ => failed(r, Vxi11Error::NoLink) && final(self)@.xid == old(self)@.xid,
            },
    {
        let link_id = self.get_link()?;
        self.start(DEVICE_READ)?;
        pack_device_read_parms(
            &mut self.client.packer,
            link_id,
            u32::MAX,
            DEFAULT_LOCK_TIMEOUT,
            DEFAULT_LOCK_TIMEOUT,
            0,
            0,
        );
        self.framed()
    }

    /// Takes bytes received for DEVICE_READ: `Ok(None)` while the reply is
    /// incomplete, then the data read.
    pub fn receive_read(&mut self, data: &[u8]) -> (r: Result<Option<Vec<u8>>, Vxi11Error>)
        ensures
            final(self)@.xid == old(self)@.xid,
            final(self)@.link == old(self)@.link,
            final(self)@.sent == old(self)@.sent,
            match stream_wait(old(self)@.pending + data@, old(self)@.xid) {
                StreamWait::Waiting(buf) => r matches Ok(None) && final(self)@.pending == buf,
                StreamWait::Failed(e) => failed(r, Vxi11Error::Rpc(e)),
                StreamWait::Matched(body, rest) => final(self)@.pending == rest
                    && match read_result(body) {
                    Ok(bytes) => r matches Ok(Some(v)) && v@ == bytes,
                    Err(e) => failed(r, e),
                },
            },
    {
        if !self.feed(data)? {
            return Ok(None);
        }
        let bytes = decode_read(&mut self.client.unpacker)?;
        Ok(Some(bytes))
    }

    /// Starts DESTROY_LINK. Fails with `NoLink` unless linked.
    pub fn start_destroy_link(&mut self) -> (r: Result<Vec<u8>, Vxi11Error>)
        ensures
            final(self)@.link == old(self)@.link,
            final(self)@.pending == old(self)@.pending,
            final(self)@.sent == old(self)@.sent,
            match old(self)@.link {
                LinkState::Linked(l) => if old(self)@.xid == u32::MAX {
                    failed(r, Vxi11Error::Rpc(RpcError::XidExhausted))
                } else {
                    &&& final(self)@.xid == old(self)@.xid + 1
                    &&& r is Ok
                    &&& r->Ok_0@ == core_call(
                        final(self)@.xid,
                        DESTROY_LINK,
                        device_link_bytes(l.link_id),
                    )
                },
                _ => failed(r, Vxi11Error::NoLink) && final(self)@.xid == old(self)@.xid,
            },
    {
        let link_id = self.get_link()?;
        self.start(DESTROY_LINK)?;
        pack_device_link(&mut self.client.packer, link_id);
        self.framed()
    }

    /// Takes bytes received for DESTROY_LINK: `Ok(false)` while the reply
    /// is incomplete, `Ok(true)` once the link is gone and the client closed.
    pub fn receive_destroy_link(&mut self, data: &[u8]) -> (r: Result<bool, Vxi11Error>)
        ensures
            final(self)@.xid == old(self)@.xid,
            final(self)@.sent == old(self)@.sent,
            match stream_wait(old(self)@.pending + data@, old(self)@.xid) {
                StreamWait::Waiting(buf) => r matches Ok(false) && final(self)@.pending == buf
                    && final(self)@.link == old(self)@.link,
                StreamWait::Failed(e) => failed(r, Vxi11Error::Rpc(e))
                    && final(self)@.link == old(self)@.link,
                StreamWait::Matched(body, rest) => final(self)@.pending == rest
                    && match destroy_link_result(body) {
                    Ok(()) => r matches Ok(true) && final(self)@.link == LinkState::Closed,
                    Err(e) => failed(r, e) && final(self)@.link == old(self)@.link,
                },
            },
    {
        if !self.feed(data)? {
            return Ok(false);
        }
        decode_destroy_link(&mut self.client.unpacker)?;
        self.link = LinkState::Closed;
        Ok(true)
    }
}

} // verus!
