//! The stream transport's side of an exchange: one call at a time, sent as
//! a single record, and replies matched to it by transaction id.

use vstd::prelude::*;

use crate::rpc::record::{
    frame_record, lemma_parse_last, lemma_record_parse_bounds, parse_record, record_bytes,
    record_parse, MAX_FRAGMENT_LEN,
};
use crate::rpc::xdr_pack::{callheader_no_auth_bytes, pack_callheader_no_auth};
use crate::rpc::xdr_unpack::{dec_replyheader, unpack_replyheader};
use crate::rpc::RpcError;
use crate::xdr::{Packer, Unpacker};

verus! {

/// Where the wait for the reply to call `xid` stands once `buf` has arrived.
pub enum StreamWait {
    /// No reply yet; `buf` is kept for the next bytes to complete.
    Waiting(Seq<u8>),
    /// The reply arrived: the result after its header, and the bytes after
    /// its record.
    Matched(Seq<u8>, Seq<u8>),
    /// The exchange failed.
    Failed(RpcError),
}

/// Records are taken in order. A reply with an earlier xid is stale and
/// skipped; a reply with a later one is a protocol violation.
pub open spec fn stream_wait(buf: Seq<u8>, xid: u32) -> StreamWait
    decreases buf.len(),
{
    match record_parse(buf) {
        None => StreamWait::Waiting(buf),
        Some((payload, used)) => match dec_replyheader(payload) {
            Err(e) => StreamWait::Failed(e),
            Ok((got, _, body)) => if got == xid {
                StreamWait::Matched(body, buf.skip(used as int))
            } else if got < xid {
                if 0 < used <= buf.len() {
                    stream_wait(buf.skip(used as int), xid)
                } else {
                    StreamWait::Waiting(buf)
                }
            } else {
                StreamWait::Failed(RpcError::FutureXid { expected: xid, got })
            },
        },
    }
}

/// One record at the front of `reply ++ rest`.
proof fn lemma_wait_first(reply: Seq<u8>, rest: Seq<u8>, xid: u32)
    requires
        reply.len() <= MAX_FRAGMENT_LEN,
    ensures
        stream_wait(record_bytes(reply) + rest, xid) == match dec_replyheader(reply) {
            Err(e) => StreamWait::Failed(e),
            Ok((got, _, body)) => if got == xid {
                StreamWait::Matched(body, rest)
            } else if got < xid {
                stream_wait(rest, xid)
            } else {
                StreamWait::Failed(RpcError::FutureXid { expected: xid, got })
            },
        },
{
    let all = record_bytes(reply) + rest;
    lemma_parse_last(reply, rest);
    assert(all.skip(4 + reply.len() as int) =~= rest);
}

/// A well-formed reply to an earlier call is discarded and the wait goes
/// on: when the reply to the awaited call follows, that reply completes it.
pub proof fn lemma_stale_reply_skipped(stale: Seq<u8>, current: Seq<u8>, rest: Seq<u8>, xid: u32)
    requires
        stale.len() <= MAX_FRAGMENT_LEN,
        current.len() <= MAX_FRAGMENT_LEN,
        dec_replyheader(stale) matches Ok((got, _, _)) && got < xid,
        dec_replyheader(current) matches Ok((got, _, _)) && got == xid,
    ensures
        dec_replyheader(current) matches Ok((_, _, body)) && stream_wait(
            record_bytes(stale) + record_bytes(current) + rest,
            xid,
        ) == StreamWait::Matched(body, rest),
{
    let tail = record_bytes(current) + rest;
    assert(record_bytes(stale) + record_bytes(current) + rest =~= record_bytes(stale) + tail);
    lemma_wait_first(stale, tail, xid);
    lemma_wait_first(current, rest, xid);
}

/// A well-formed reply to a later call than the awaited one fails the wait.
pub proof fn lemma_future_reply_fails(reply: Seq<u8>, rest: Seq<u8>, xid: u32)
    requires
        reply.len() <= MAX_FRAGMENT_LEN,
        dec_replyheader(reply) matches Ok((got, _, _)) && got > xid,
    ensures
        dec_replyheader(reply) matches Ok((got, _, _)) && stream_wait(
            record_bytes(reply) + rest,
            xid,
        ) == StreamWait::Failed(RpcError::FutureXid { expected: xid, got }),
{
    lemma_wait_first(reply, rest, xid);
}

/// Protocol state of a client on a stream connection. The connection itself
/// belongs to the caller, who sends what `framed_call` returns and hands
/// every byte received to `receive`.
pub struct TcpClient {
    pub prog: u32,
    pub vers: u32,
    pub lastxid: u32,
    pub packer: Packer,
    pub unpacker: Unpacker,
    /// Received bytes not yet part of a complete record.
    pub pending: Vec<u8>,
}

impl TcpClient {
    pub fn new(prog: u32, vers: u32) -> (r: Self)
        ensures
            r.prog == prog,
            r.vers == vers,
            r.lastxid == 0,
            r.packer@ == Seq::<u8>::empty(),
            r.pending@ == Seq::<u8>::empty(),
    {
        TcpClient {
            prog,
            vers,
            lastxid: 0,
            packer: Packer::new(),
            unpacker: Unpacker::new(),
            pending: Vec::new(),
        }
    }

    /// Takes the next transaction id and starts a call of procedure `prc`;
    /// the caller packs the arguments after the header.
    pub fn start_call(&mut self, prc: u32) -> (r: Result<(), RpcError>)
        ensures
            final(self).prog == old(self).prog,
            final(self).vers == old(self).vers,
            final(self).pending == old(self).pending,
            old(self).lastxid == u32::MAX ==> r == Err::<(), RpcError>(RpcError::XidExhausted)
                && *final(self) == *old(self),
            old(self).lastxid < u32::MAX ==> r is Ok && final(self).lastxid == old(self).lastxid
                + 1 && final(self).packer@ == callheader_no_auth_bytes(
                final(self).lastxid,
                old(self).prog,
                old(self).vers,
                prc,
            ),
    {
        if self.lastxid == u32::MAX {
            return Err(RpcError::XidExhausted);
        }
        self.lastxid = self.lastxid + 1;
        self.packer.reset();
        pack_callheader_no_auth(&mut self.packer, self.lastxid, self.prog, self.vers, prc);
        assert(self.packer@ =~= callheader_no_auth_bytes(self.lastxid, self.prog, self.vers, prc));
        Ok(())
    }

    /// The packed call as one record, ready to send.
    pub fn framed_call(&self) -> (r: Result<Vec<u8>, RpcError>)
        ensures
            self.packer@.len() <= MAX_FRAGMENT_LEN ==> r is Ok && r->Ok_0@ == record_bytes(
                self.packer@,
            ),
            self.packer@.len() > MAX_FRAGMENT_LEN ==> r == Err::<Vec<u8>, RpcError>(
                RpcError::CallTooLong,
            ),
    {
        let call = self.packer.get_buf();
        frame_record(call.as_slice())
    }

    /// Takes bytes received on the connection. Returns `Ok(true)` once the
    /// reply to the current call has arrived, with its result left in
    /// `unpacker`; `Ok(false)` while it has not. Stale replies are skipped.
    pub fn receive(&mut self, data: &[u8]) -> (r: Result<bool, RpcError>)
        ensures
            final(self).prog == old(self).prog,
            final(self).vers == old(self).vers,
            final(self).lastxid == old(self).lastxid,
            final(self).packer == old(self).packer,
            match stream_wait(old(self).pending@ + data@, old(self).lastxid) {
                StreamWait::Waiting(buf) => r == Ok::<bool, RpcError>(false) && final(self).pending@
                    == buf,
                StreamWait::Matched(body, rest) => r == Ok::<bool, RpcError>(true)
                    && final(self).unpacker@ == body && final(self).pending@ == rest,
                StreamWait::Failed(e) => r == Err::<bool, RpcError>(e) && final(self).pending@
                    == Seq::<u8>::empty(),
            },
    {
        let mut i: usize = 0;
        while i < data.len()
            invariant
                i <= data@.len(),
                self.prog == old(self).prog,
                self.vers == old(self).vers,
                self.lastxid == old(self).lastxid,
                self.packer == old(self).packer,
                self.pending@ == old(self).pending@ + data@.take(i as int),
            decreases data@.len() - i,
        {
            self.pending.push(data[i]);
            i = i + 1;
            assert(self.pending@ =~= old(self).pending@ + data@.take(i as int));
        }
        assert(data@.take(i as int) =~= data@);
        loop
            invariant
                self.prog == old(self).prog,
                self.vers == old(self).vers,
                self.lastxid == old(self).lastxid,
                self.packer == old(self).packer,
                stream_wait(old(self).pending@ + data@, old(self).lastxid) == stream_wait(
                    self.pending@,
                    self.lastxid,
                ),
            decreases self.pending@.len(),
        {
            proof {
                lemma_record_parse_bounds(self.pending@);
            }
            let (payload, used) = match parse_record(self.pending.as_slice()) {
                Some(p) => p,
                None => return Ok(false),
            };
            let rest = self.pending.split_off(used);
            let ghost whole = self.pending@;
            self.pending = rest;
            self.unpacker.reset(payload.as_slice());
            let xid = match unpack_replyheader(&mut self.unpacker) {
                Ok((xid, _)) => xid,
                Err(e) => {
                    self.pending = Vec::new();
                    return Err(e);
                },
            };
            if xid == self.lastxid {
                return Ok(true);
            } else if xid > self.lastxid {
                self.pending = Vec::new();
                return Err(RpcError::FutureXid { expected: self.lastxid, got: xid });
            }
        }
    }
}

} // verus!
