//! ONC RPC version 2: call/reply envelopes, record marking for stream
//! transports, reply matching by transaction id, and the port mapper.

use vstd::prelude::*;

use crate::xdr::CodecError;

pub mod xdr_pack;
pub mod xdr_unpack;
pub mod record;
pub mod tcp_clients;
pub mod udp_clients;
pub mod port_mapping;

verus! {

pub const RPCVERSION: u32 = 2;

pub const CALL: i32 = 0;
pub const REPLY: i32 = 1;

pub const MSG_ACCEPTED: i32 = 0;
pub const MSG_DENIED: i32 = 1;

pub const RPC_MISMATCH: i32 = 0;
pub const AUTH_ERROR: i32 = 1;

/// The call was executed.
pub const SUCCESS: i32 = 0;
/// The server does not export the program.
pub const PROG_UNAVAIL: i32 = 1;
/// The server does not support the program version.
pub const PROG_MISMATCH: i32 = 2;
/// The program does not support the procedure.
pub const PROC_UNAVAIL: i32 = 3;
/// The procedure could not decode its arguments.
pub const GARBAGE_ARGS: i32 = 4;

pub const IPPROTO_TCP: u32 = 6;
pub const IPPROTO_UDP: u32 = 17;

/// Failures of an RPC exchange, apart from those of the transport itself.
#[derive(Debug, Clone, Copy, PartialEq, Eq, Structural)]
pub enum RpcError {
    /// The message could not be decoded.
    Codec(CodecError),
    /// The message type was not REPLY.
    NotReply(i32),
    /// Denied: the server supports RPC versions `low..=high` only.
    RpcMismatch { low: u32, high: u32 },
    /// Denied: authentication failed with the given status.
    AuthError(u32),
    /// Denied for a reason this client does not know.
    DeniedUnknown(i32),
    /// Neither accepted nor denied.
    UnknownReplyStat(i32),
    /// Accepted, but the program is not exported.
    ProgUnavail,
    /// Accepted, but the server supports versions `low..=high` only.
    ProgMismatch { low: u32, high: u32 },
    /// Accepted, but the arguments could not be decoded.
    GarbageArgs,
    /// Accepted, but failed with another status.
    CallFailed(i32),
    /// A reply carried a transaction id later than the one awaited.
    FutureXid { expected: u32, got: u32 },
    /// A datagram reply carried a transaction id other than the one awaited.
    WrongXid { expected: u32, got: u32 },
    /// The transaction id counter has reached its largest value.
    XidExhausted,
    /// A call too long for one record-marking fragment.
    CallTooLong,
    /// Bytes were left over after the reply's result.
    TrailingData,
    /// The port mapper knows no such program and version.
    NotRegistered,
    /// A port mapping named a protocol other than TCP or UDP.
    UnknownProtocol(u32),
}

/// A codec failure as an RPC failure.
pub(crate) fn codec<T>(r: Result<T, CodecError>) -> (o: Result<T, RpcError>)
    ensures
        match r {
            Ok(v) => o == Ok::<T, RpcError>(v),
            Err(e) => o == Err::<T, RpcError>(RpcError::Codec(e)),
        },
{
    match r {
        Ok(v) => Ok(v),
        Err(e) => Err(RpcError::Codec(e)),
    }
}

} // verus!
