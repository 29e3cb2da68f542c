//! The datagram transports' side of an exchange: a whole message per
//! datagram, so no record marking.

use vstd::prelude::*;

use crate::rpc::xdr_pack::{callheader_no_auth_bytes, pack_callheader_no_auth};
use crate::rpc::xdr_unpack::{dec_replyheader, unpack_replyheader};
use crate::rpc::RpcError;
use crate::xdr::{Packer, Unpacker};

verus! {

/// Lowest local port tried when binding a point-to-point client.
pub const FIRST_LOCAL_PORT: u16 = 3600;

/// One past the highest local port tried.
pub const END_LOCAL_PORT: u16 = 3900;

/// Receive window of a broadcast exchange, in seconds.
pub const BROADCAST_TIMEOUT_SECS: u64 = 5;

/// Protocol state of a point-to-point datagram client: one datagram out,
/// one datagram back, whose xid must be exactly the call's.
pub struct UdpClient {
    pub prog: u32,
    pub vers: u32,
    pub lastxid: u32,
}

impl UdpClient {
    pub fn new(prog: u32, vers: u32) -> (r: Self)
        ensures
            r.prog == prog,
            r.vers == vers,
            r.lastxid == 0,
    {
        UdpClient { prog, vers, lastxid: 0 }
    }

    /// Takes the next transaction id and packs the header of a call of
    /// procedure `prc` into `packer`, replacing what it held.
    pub fn start_call(&mut self, packer: &mut Packer, prc: u32) -> (r: Result<(), RpcError>)
        ensures
            final(self).prog == old(self).prog,
            final(self).vers == old(self).vers,
            old(self).lastxid == u32::MAX ==> r == Err::<(), RpcError>(RpcError::XidExhausted)
                && *final(self) == *old(self) && final(packer)@ == old(packer)@,
            old(self).lastxid < u32::MAX ==> r is Ok && final(self).lastxid == old(self).lastxid
                + 1 && final(packer)@ == callheader_no_auth_bytes(
                final(self).lastxid,
                old(self).prog,
                old(self).vers,
                prc,
            ),
    {
        if self.lastxid == u32::MAX {
            return Err(RpcError::XidExhausted);
        }
        self.lastxid = self.lastxid + 1;
        packer.reset();
        pack_callheader_no_auth(packer, self.lastxid, self.prog, self.vers, prc);
        assert(final(packer)@ =~= callheader_no_auth_bytes(
            self.lastxid,
            self.prog,
            self.vers,
            prc,
        ));
        Ok(())
    }

    /// Checks the datagram received in answer to the current call and leaves
    /// its result in `unpacker`. Any other xid is a failure.
    pub fn check_reply(&self, datagram: &[u8], unpacker: &mut Unpacker) -> (r: Result<(), RpcError>)
        ensures
            match dec_replyheader(datagram@) {
                Err(e) => r == Err::<(), RpcError>(e),
                Ok((got, _, body)) => if got == self.lastxid {
                    r is Ok && final(unpacker)@ == body
                } else {
                    r == Err::<(), RpcError>(RpcError::WrongXid { expected: self.lastxid, got })
                },
            },
    {
        unpacker.reset(datagram);
        let (xid, _) = unpack_replyheader(unpacker)?;
        if xid == self.lastxid {
            Ok(())
        } else {
            Err(RpcError::WrongXid { expected: self.lastxid, got: xid })
        }
    }
}

/// Protocol state of a broadcast client used for discovery: one call to
/// every host, and a reply from any number of them.
pub struct BroadcastUdpClient {
    pub prog: u32,
    pub vers: u32,
    /// The port the call is broadcast to.
    pub port: u16,
    pub lastxid: u32,
    pub packer: Packer,
    pub unpacker: Unpacker,
}

impl BroadcastUdpClient {
    pub fn new(port: u16, prog: u32, vers: u32) -> (r: Self)
        ensures
            r.prog == prog,
            r.vers == vers,
            r.port == port,
            r.lastxid == 0,
            r.packer@ == Seq::<u8>::empty(),
    {
        BroadcastUdpClient {
            prog,
            vers,
            port,
            lastxid: 0,
            packer: Packer::new(),
            unpacker: Unpacker::new(),
        }
    }

    /// Takes the next transaction id and starts a call of procedure `prc`;
    /// the caller packs the arguments after the header and broadcasts
    /// `packer`'s bytes.
    pub fn start_call(&mut self, prc: u32) -> (r: Result<(), RpcError>)
        ensures
            final(self).prog == old(self).prog,
            final(self).vers == old(self).vers,
            final(self).port == old(self).port,
            old(self).lastxid == u32::MAX ==> r == Err::<(), RpcError>(RpcError::XidExhausted)
                && *final(self) == *old(self),
            old(self).lastxid < u32::MAX ==> r is Ok && final(self).lastxid == old(self).lastxid
                + 1 && final(self).packer@ == callheader_no_auth_bytes(
                final(self).lastxid,
                old(self).prog,
                old(self).vers,
                prc,
            ),
    {
        if self.lastxid == u32::MAX {
            return Err(RpcError::XidExhausted);
        }
        self.lastxid = self.lastxid + 1;
        self.packer.reset();
        pack_callheader_no_auth(&mut self.packer, self.lastxid, self.prog, self.vers, prc);
        assert(self.packer@ =~= callheader_no_auth_bytes(self.lastxid, self.prog, self.vers, prc));
        Ok(())
    }

    /// Looks at one datagram received during the broadcast window: the
    /// result it carries when it is a successful reply to the current call,
    /// and `None` for anything else, which is skipped rather than failing
    /// the collection.
    pub fn accept_reply(&mut self, datagram: &[u8]) -> (r: Option<Vec<u8>>)
        ensures
            final(self).prog == old(self).prog,
            final(self).vers == old(self).vers,
            final(self).port == old(self).port,
            final(self).lastxid == old(self).lastxid,
            final(self).packer == old(self).packer,
            match dec_replyheader(datagram@) {
                Ok((got, _, body)) => if got == old(self).lastxid {
                    r is Some && r->0@ == body
                } else {
                    r is None
                },
                Err(_) => r is None,
            },
    {
        self.unpacker.reset(datagram);
        match unpack_replyheader(&mut self.unpacker) {
            Ok((xid, _)) => if xid == self.lastxid {
                Some(self.unpacker.get_remaining_bytes())
            } else {
                None
            },
            Err(_) => None,
        }
    }

    /// The results of all successful replies to the current call among the
    /// datagrams received, in arrival order.
    pub fn collect_replies(&mut self, datagrams: &Vec<Vec<u8>>) -> (r: Vec<Vec<u8>>)
        ensures
            final(self).lastxid == old(self).lastxid,
            final(self).packer == old(self).packer,
            r@.map_values(|v: Vec<u8>| v@) == broadcast_results(
                datagrams@.map_values(|d: Vec<u8>| d@),
                old(self).lastxid,
            ),
    {
        let ghost ds = datagrams@.map_values(|d: Vec<u8>| d@);
        let mut r: Vec<Vec<u8>> = Vec::new();
        let mut i: usize = 0;
        while i < datagrams.len()
            invariant
                i <= datagrams@.len(),
                ds == datagrams@.map_values(|d: Vec<u8>| d@),
                self.lastxid == old(self).lastxid,
                self.packer == old(self).packer,
                self.prog == old(self).prog,
                self.vers == old(self).vers,
                self.port == old(self).port,
                r@.map_values(|v: Vec<u8>| v@) == broadcast_results(
                    ds.take(i as int),
                    self.lastxid,
                ),
            decreases datagrams@.len() - i,
        {
            let got = self.accept_reply(datagrams[i].as_slice());
            proof {
                assert(ds.take(i + 1).drop_last() =~= ds.take(i as int));
                assert(ds.take(i + 1).last() == ds[i as int]);
            }
            match got {
                Some(body) => {
                    r.push(body);
                },
                None => {},
            }
            i = i + 1;
            assert(r@.map_values(|v: Vec<u8>| v@) =~= broadcast_results(
                ds.take(i as int),
                self.lastxid,
            ));
        }
        assert(ds.take(i as int) =~= ds);
        r
    }
}

/// The results carried by the successful replies to call `xid` among
/// `datagrams`, in order.
pub open spec fn broadcast_results(datagrams: Seq<Seq<u8>>, xid: u32) -> Seq<Seq<u8>>
    decreases datagrams.len(),
{
    if datagrams.len() == 0 {
        Seq::empty()
    } else {
        let earlier = broadcast_results(datagrams.drop_last(), xid);
        match dec_replyheader(datagrams.last()) {
            Ok((got, _, body)) => if got == xid {
                earlier.push(body)
            } else {
                earlier
            },
            Err(_) => earlier,
        }
    }
}

} // verus!
