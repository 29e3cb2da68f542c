//! The port mapper (program 100000, version 2): where an RPC program
//! listens on a host, and which programs a host has registered.

use vstd::prelude::*;

use crate::rpc::record::{record_bytes, MAX_FRAGMENT_LEN};
use crate::rpc::tcp_clients::{stream_wait, StreamWait, TcpClient};
use crate::rpc::udp_clients::UdpClient;
use crate::rpc::xdr_pack::{callheader_no_auth_bytes, mapping_bytes, pack_mapping};
use crate::rpc::xdr_unpack::dec_replyheader;
use crate::rpc::{codec, RpcError, IPPROTO_TCP, IPPROTO_UDP};
use crate::xdr::{
    dec_bool, dec_u32, lemma_u32_bytes_round_trip, u32_bytes, CodecError, Packer, Unpacker,
};

verus! {

pub const PMAP_PROG: u32 = 100000;
pub const PMAP_VERS: u32 = 2;
pub const PMAP_PORT: u16 = 111;

/// (void) -> void
pub const PMAPPROC_NULL: u32 = 0;
/// (mapping) -> bool
pub const PMAPPROC_SET: u32 = 1;
/// (mapping) -> bool
pub const PMAPPROC_UNSET: u32 = 2;
/// (mapping) -> unsigned int
pub const PMAPPROC_GETPORT: u32 = 3;
/// (void) -> pmaplist
pub const PMAPPROC_DUMP: u32 = 4;
/// (call_args) -> call_result
pub const PMAPPROC_CALLIT: u32 = 5;

#[derive(Debug, Clone, Copy, PartialEq, Eq, Structural)]
pub enum Protocol {
    TCP,
    UDP,
}

pub open spec fn protocol_number(p: Protocol) -> u32 {
    match p {
        Protocol::TCP => IPPROTO_TCP,
        Protocol::UDP => IPPROTO_UDP,
    }
}

/// The protocol with IP protocol number `n`, if it is TCP or UDP.
pub open spec fn protocol_of(n: u32) -> Option<Protocol> {
    if n == IPPROTO_TCP {
        Some(Protocol::TCP)
    } else if n == IPPROTO_UDP {
        Some(Protocol::UDP)
    } else {
        None
    }
}

impl Protocol {
    /// The IP protocol number.
    pub fn to_u32(&self) -> (r: u32)
        ensures
            r == protocol_number(*self),
    {
        match self {
            Protocol::TCP => IPPROTO_TCP,
            Protocol::UDP => IPPROTO_UDP,
        }
    }
}

/// One registration: a program version reachable over a protocol on a port.
#[derive(Debug, Clone, Copy, PartialEq, Eq, Structural)]
pub struct Mapping {
    pub program: u32,
    pub version: u32,
    pub protocol: Protocol,
    pub port: u32,
}

/// The GETPORT result: the port, which must be the whole result; port 0
/// means the program is not registered.
pub open spec fn dec_port(s: Seq<u8>) -> Result<u32, RpcError> {
    match dec_u32(s) {
        Err(e) => Err(RpcError::Codec(e)),
        Ok((port, rest)) => if rest.len() != 0 {
            Err(RpcError::TrailingData)
        } else if port == 0 {
            Err(RpcError::NotRegistered)
        } else {
            Ok(port)
        },
    }
}

/// A GETPORT answer of port 0 is never a usable port.
pub proof fn lemma_port_zero_not_registered()
    ensures
        dec_port(u32_bytes(0)) == Err::<u32, RpcError>(RpcError::NotRegistered),
{
    lemma_u32_bytes_round_trip(0);
    assert(u32_bytes(0).skip(4).len() == 0);
}

/// One entry of a DUMP list after its continuation flag, up to the port.
pub open spec fn dec_entry(s: Seq<u8>) -> Result<(Mapping, Seq<u8>), RpcError> {
    match dec_u32(s) {
        Err(e) => Err(RpcError::Codec(e)),
        Ok((program, s1)) => match dec_u32(s1) {
            Err(e) => Err(RpcError::Codec(e)),
            Ok((version, s2)) => match dec_u32(s2) {
                Err(e) => Err(RpcError::Codec(e)),
                Ok((prot, s3)) => match protocol_of(prot) {
                    None => Err(RpcError::UnknownProtocol(prot)),
                    Some(protocol) => match dec_u32(s3) {
                        Err(e) => Err(RpcError::Codec(e)),
                        Ok((port, s4)) => Ok((Mapping { program, version, protocol, port }, s4)),
                    },
                },
            },
        },
    }
}

/// A DUMP list: entries each behind a 1 flag, ended by a 0 flag.
pub open spec fn dec_mapping_list(s: Seq<u8>) -> Result<(Seq<Mapping>, Seq<u8>), RpcError>
    decreases s.len(),
{
    match dec_bool(s) {
        Err(e) => Err(RpcError::Codec(e)),
        Ok((false, rest)) => Ok((Seq::empty(), rest)),
        Ok((true, s1)) => match dec_entry(s1) {
            Err(e) => Err(e),
            Ok((m, s2)) => if s2.len() < s.len() {
                match dec_mapping_list(s2) {
                    Err(e) => Err(e),
                    Ok((ms, rest)) => Ok((seq![m] + ms, rest)),
                }
            } else {
                Err(RpcError::Codec(CodecError::UnexpectedEof))
            },
        },
    }
}

/// Reads a GETPORT result. On success nothing is left in `unpacker`.
pub fn unpack_port(unpacker: &mut Unpacker) -> (r: Result<u32, RpcError>)
    ensures
        r == dec_port(old(unpacker)@),
{
    let port = codec(unpacker.unpack_u32())?;
    if !unpacker.all_data_consumed() {
        return Err(RpcError::TrailingData);
    }
    if port == 0 {
        return Err(RpcError::NotRegistered);
    }
    Ok(port)
}

fn unpack_entry(unpacker: &mut Unpacker) -> (r: Result<Mapping, RpcError>)
    ensures
        match dec_entry(old(unpacker)@) {
            Ok((m, rest)) => r == Ok::<Mapping, RpcError>(m) && final(unpacker)@ == rest,
            Err(e) => r == Err::<Mapping, RpcError>(e),
        },
{
    let program = codec(unpacker.unpack_u32())?;
    let version = codec(unpacker.unpack_u32())?;
    let prot = codec(unpacker.unpack_u32())?;
    let protocol = if prot == IPPROTO_TCP {
        Protocol::TCP
    } else if prot == IPPROTO_UDP {
        Protocol::UDP
    } else {
        return Err(RpcError::UnknownProtocol(prot));
    };
    let port = codec(unpacker.unpack_u32())?;
    Ok(Mapping { program, version, protocol, port })
}

/// Reads a DUMP list. An entry naming a protocol other than TCP or UDP is
/// an error, not skipped.
pub fn unpack_mapping_list(unpacker: &mut Unpacker) -> (r: Result<Vec<Mapping>, RpcError>)
    ensures
        match dec_mapping_list(old(unpacker)@) {
            Ok((ms, rest)) => r is Ok && r->Ok_0@ == ms && final(unpacker)@ == rest,
            Err(e) => r == Err::<Vec<Mapping>, RpcError>(e),
        },
{
    let mut ans: Vec<Mapping> = Vec::new();
    loop
        invariant
            dec_mapping_list(old(unpacker)@) == match dec_mapping_list(unpacker@) {
                Ok((ms, rest)) => Ok((ans@ + ms, rest)),
                Err(e) => Err::<(Seq<Mapping>, Seq<u8>), RpcError>(e),
            },
        decreases unpacker@.len(),
    {
        let ghost before = unpacker@;
        let more = codec(unpacker.unpack_bool())?;
        if !more {
            assert(ans@ + Seq::<Mapping>::empty() =~= ans@);
            return Ok(ans);
        }
        let m = unpack_entry(unpacker)?;
        proof {
            assert(unpacker@.len() < before.len());
            match dec_mapping_list(unpacker@) {
                Ok((ms, rest)) => {
                    assert(ans@.push(m) + ms =~= ans@ + (seq![m] + ms));
                },
                Err(_) => {},
            }
        }
        ans.push(m);
    }
}

/// Decodes the result of a DUMP reply, which must hold nothing after the list.
pub fn decode_dump(result: &[u8]) -> (r: Result<Vec<Mapping>, RpcError>)
    ensures
        match dec_mapping_list(result@) {
            Ok((ms, rest)) => if rest.len() == 0 {
                r is Ok && r->Ok_0@ == ms
            } else {
                r == Err::<Vec<Mapping>, RpcError>(RpcError::TrailingData)
            },
            Err(e) => r == Err::<Vec<Mapping>, RpcError>(e),
        },
{
    let mut unpacker = Unpacker::new();
    unpacker.reset(result);
    let ms = unpack_mapping_list(&mut unpacker)?;
    if !unpacker.all_data_consumed() {
        return Err(RpcError::TrailingData);
    }
    Ok(ms)
}

/// Port-mapper client over a stream connection to port 111 of a host.
pub struct TcpPortMapperClient {
    pub client: TcpClient,
}

impl TcpPortMapperClient {
    pub fn new() -> (r: Self)
        ensures
            r.client.prog == PMAP_PROG,
            r.client.vers == PMAP_VERS,
            r.client.lastxid == 0,
            r.client.pending@ == Seq::<u8>::empty(),
    {
        TcpPortMapperClient { client: TcpClient::new(PMAP_PROG, PMAP_VERS) }
    }

    /// The record that asks for the port of `m`'s program, version and
    /// protocol (its port field travels too, and is ignored by the server).
    pub fn start_get_port(&mut self, m: &Mapping) -> (r: Result<Vec<u8>, RpcError>)
        requires
            old(self).client.prog == PMAP_PROG,
            old(self).client.vers == PMAP_VERS,
        ensures
            final(self).client.prog == PMAP_PROG,
            final(self).client.vers == PMAP_VERS,
            final(self).client.pending == old(self).client.pending,
            old(self).client.lastxid == u32::MAX ==> r == Err::<Vec<u8>, RpcError>(
                RpcError::XidExhausted,
            ),
            old(self).client.lastxid < u32::MAX ==> r is Ok && final(self).client.lastxid == old(
                self,
            ).client.lastxid + 1 && r->Ok_0@ == record_bytes(
                callheader_no_auth_bytes(
                    final(self).client.lastxid,
                    PMAP_PROG,
                    PMAP_VERS,
                    PMAPPROC_GETPORT,
                ) + mapping_bytes(m.program, m.version, protocol_number(m.protocol), m.port),
            ),
    {
        self.client.start_call(PMAPPROC_GETPORT)?;
        let prot = m.protocol.to_u32();
        pack_mapping(&mut self.client.packer, m.program, m.version, prot, m.port);
        proof {
            assert(self.client.packer@.len() <= MAX_FRAGMENT_LEN);
        }
        self.client.framed_call()
    }

    /// Takes bytes received for a GETPORT call: `Ok(None)` while the reply
    /// is incomplete, then the port. A port of 0 is `NotRegistered`, never a
    /// usable port.
    pub fn receive_get_port(&mut self, data: &[u8]) -> (r: Result<Option<u32>, RpcError>)
        ensures
            final(self).client.prog == old(self).client.prog,
            final(self).client.vers == old(self).client.vers,
            final(self).client.lastxid == old(self).client.lastxid,
            match stream_wait(old(self).client.pending@ + data@, old(self).client.lastxid) {
                StreamWait::Waiting(buf) => r == Ok::<Option<u32>, RpcError>(None)
                    && final(self).client.pending@ == buf,
                StreamWait::Matched(body, rest) => final(self).client.pending@ == rest
                    && match dec_port(body) {
                    Ok(port) => r == Ok::<Option<u32>, RpcError>(Some(port)),
                    Err(e) => r == Err::<Option<u32>, RpcError>(e),
                },
                StreamWait::Failed(e) => r == Err::<Option<u32>, RpcError>(e),
            },
    {
        if !self.client.receive(data)? {
            return Ok(None);
        }
        let port = unpack_port(&mut self.client.unpacker)?;
        Ok(Some(port))
    }
}

/// Port-mapper client over datagrams to port 111 of a host.
pub struct UdpPortMapperClient {
    pub packer: Packer,
    pub unpacker: Unpacker,
    pub udp_client: UdpClient,
}

impl UdpPortMapperClient {
    pub fn new() -> (r: Self)
        ensures
            r.udp_client.prog == PMAP_PROG,
            r.udp_client.vers == PMAP_VERS,
            r.udp_client.lastxid == 0,
    {
        UdpPortMapperClient {
            packer: Packer::new(),
            unpacker: Unpacker::new(),
            udp_client: UdpClient::new(PMAP_PROG, PMAP_VERS),
        }
    }

    /// The datagram that asks for the host's whole mapping list.
    pub fn start_dump(&mut self) -> (r: Result<Vec<u8>, RpcError>)
        requires
            old(self).udp_client.prog == PMAP_PROG,
            old(self).udp_client.vers == PMAP_VERS,
        ensures
            final(self).udp_client.prog == PMAP_PROG,
            final(self).udp_client.vers == PMAP_VERS,
            old(self).udp_client.lastxid == u32::MAX ==> r == Err::<Vec<u8>, RpcError>(
                RpcError::XidExhausted,
            ),
            old(self).udp_client.lastxid < u32::MAX ==> r is Ok && final(self).udp_client.lastxid
                == old(self).udp_client.lastxid + 1 && r->Ok_0@ == callheader_no_auth_bytes(
                final(self).udp_client.lastxid,
                PMAP_PROG,
                PMAP_VERS,
                PMAPPROC_DUMP,
            ),
    {
        self.udp_client.start_call(&mut self.packer, PMAPPROC_DUMP)?;
        Ok(self.packer.get_buf())
    }

    /// The mapping list carried by the datagram received for a DUMP call.
    pub fn finish_dump(&mut self, datagram: &[u8]) -> (r: Result<Vec<Mapping>, RpcError>)
        ensures
            final(self).udp_client == old(self).udp_client,
            match dec_replyheader(datagram@) {
                Err(e) => r == Err::<Vec<Mapping>, RpcError>(e),
                Ok((got, _, body)) => if got != old(self).udp_client.lastxid {
                    r == Err::<Vec<Mapping>, RpcError>(
                        RpcError::WrongXid { expected: old(self).udp_client.lastxid, got },
                    )
                } else {
                    match dec_mapping_list(body) {
                        Ok((ms, _)) => r is Ok && r->Ok_0@ == ms,
                        Err(e) => r == Err::<Vec<Mapping>, RpcError>(e),
                    }
                },
            },
    {
        self.udp_client.check_reply(datagram, &mut self.unpacker)?;
        unpack_mapping_list(&mut self.unpacker)
    }
}

} // verus!
