//! Decoding of RPC reply headers.

use vstd::prelude::*;

use crate::rpc::{
    codec,
    RpcError, AUTH_ERROR, GARBAGE_ARGS, MSG_ACCEPTED, MSG_DENIED, PROG_MISMATCH, PROG_UNAVAIL,
    REPLY, RPC_MISMATCH, SUCCESS,
};
use crate::xdr::{dec_i32, dec_opaque, dec_u32, CodecError, Unpacker};

verus! {

/// An authentication field: flavor, then the opaque body.
pub open spec fn dec_auth(s: Seq<u8>) -> Result<((i32, Seq<u8>), Seq<u8>), CodecError> {
    match dec_i32(s) {
        Err(e) => Err(e),
        Ok((flavor, s1)) => match dec_opaque(s1) {
            Err(e) => Err(e),
            Ok((body, s2)) => Ok(((flavor, body), s2)),
        },
    }
}

/// The low and high bounds of a supported-version range.
pub open spec fn dec_range(s: Seq<u8>) -> Result<(u32, u32), CodecError> {
    match dec_u32(s) {
        Err(e) => Err(e),
        Ok((low, s1)) => match dec_u32(s1) {
            Err(e) => Err(e),
            Ok((high, _)) => Ok((low, high)),
        },
    }
}

/// The body of a denied reply, after the MSG_DENIED status; always an error.
pub open spec fn dec_denied(s: Seq<u8>) -> RpcError {
    match dec_i32(s) {
        Err(e) => RpcError::Codec(e),
        Ok((why, s1)) => if why == RPC_MISMATCH {
            match dec_range(s1) {
                Err(e) => RpcError::Codec(e),
                Ok((low, high)) => RpcError::RpcMismatch { low, high },
            }
        } else if why == AUTH_ERROR {
            match dec_u32(s1) {
                Err(e) => RpcError::Codec(e),
                Ok((stat, _)) => RpcError::AuthError(stat),
            }
        } else {
            RpcError::DeniedUnknown(why)
        },
    }
}

/// The body of an accepted reply, after the MSG_ACCEPTED status: the
/// verifier, then the accept status; on SUCCESS the verifier and the bytes
/// that follow, which carry the procedure's result.
pub open spec fn dec_accepted(s: Seq<u8>) -> Result<((i32, Seq<u8>), Seq<u8>), RpcError> {
    match dec_auth(s) {
        Err(e) => Err(RpcError::Codec(e)),
        Ok((verf, s1)) => match dec_i32(s1) {
            Err(e) => Err(RpcError::Codec(e)),
            Ok((stat, s2)) => if stat == SUCCESS {
                Ok((verf, s2))
            } else if stat == PROG_UNAVAIL {
                Err(RpcError::ProgUnavail)
            } else if stat == PROG_MISMATCH {
                match dec_range(s2) {
                    Err(e) => Err(RpcError::Codec(e)),
                    Ok((low, high)) => Err(RpcError::ProgMismatch { low, high }),
                }
            } else if stat == GARBAGE_ARGS {
                Err(RpcError::GarbageArgs)
            } else {
                Err(RpcError::CallFailed(stat))
            },
        },
    }
}

/// A reply header: the xid and verifier of a successful reply, and the
/// bytes after the header.
pub open spec fn dec_replyheader(s: Seq<u8>) -> Result<(u32, (i32, Seq<u8>), Seq<u8>), RpcError> {
    match dec_u32(s) {
        Err(e) => Err(RpcError::Codec(e)),
        Ok((xid, s1)) => match dec_i32(s1) {
            Err(e) => Err(RpcError::Codec(e)),
            Ok((mtype, s2)) => if mtype != REPLY {
                Err(RpcError::NotReply(mtype))
            } else {
                match dec_i32(s2) {
                    Err(e) => Err(RpcError::Codec(e)),
                    Ok((stat, s3)) => if stat == MSG_DENIED {
                        Err(dec_denied(s3))
                    } else if stat != MSG_ACCEPTED {
                        Err(RpcError::UnknownReplyStat(stat))
                    } else {
                        match dec_accepted(s3) {
                            Err(e) => Err(e),
                            Ok((verf, rest)) => Ok((xid, verf, rest)),
                        }
                    },
                }
            },
        },
    }
}

/// Reads an authentication field. On failure the error is the one the
/// model gives; how much was consumed is then unspecified.
pub fn unpack_auth(unpacker: &mut Unpacker) -> (r: Result<(i32, Vec<u8>), CodecError>)
    ensures
        match dec_auth(old(unpacker)@) {
            Ok(((flavor, body), rest)) => match r {
                Ok((f, b)) => f == flavor && b@ == body && final(unpacker)@ == rest,
                Err(_) => false,
            },
            Err(e) => r == Err::<(i32, Vec<u8>), CodecError>(e),
        },
{
    let flavor = match unpacker.unpack_enum() {
        Ok(f) => f,
        Err(e) => return Err(e),
    };
    let stuff = match unpacker.unpack_variable_len_opaque() {
        Ok(b) => b,
        Err(e) => return Err(e),
    };
    Ok((flavor, stuff))
}

fn unpack_range(unpacker: &mut Unpacker) -> (r: Result<(u32, u32), CodecError>)
    ensures
        r == dec_range(old(unpacker)@),
{
    let low = match unpacker.unpack_u32() {
        Ok(v) => v,
        Err(e) => return Err(e),
    };
    let high = match unpacker.unpack_u32() {
        Ok(v) => v,
        Err(e) => return Err(e),
    };
    Ok((low, high))
}

/// Reads a reply header. Succeeds only for an accepted reply with status
/// SUCCESS, returning its xid and verifier and leaving the result that
/// follows; every denial and every other status is its own error.
pub fn unpack_replyheader(unpacker: &mut Unpacker) -> (r: Result<(u32, (i32, Vec<u8>)), RpcError>)
    ensures
        match dec_replyheader(old(unpacker)@) {
            Ok((xid, verf, rest)) => match r {
                Ok((x, (f, b))) => x == xid && f == verf.0 && b@ == verf.1 && final(unpacker)@
                    == rest,
                Err(_) => false,
            },
            Err(e) => r == Err::<(u32, (i32, Vec<u8>)), RpcError>(e),
        },
{
    let xid = codec(unpacker.unpack_u32())?;
    let mtype = codec(unpacker.unpack_enum())?;
    if mtype != REPLY {
        return Err(RpcError::NotReply(mtype));
    }
    let stat = codec(unpacker.unpack_enum())?;
    if stat == MSG_DENIED {
        let why = codec(unpacker.unpack_enum())?;
        if why == RPC_MISMATCH {
            let (low, high) = codec(unpack_range(unpacker))?;
            return Err(RpcError::RpcMismatch { low, high });
        } else if why == AUTH_ERROR {
            let stat = codec(unpacker.unpack_u32())?;
            return Err(RpcError::AuthError(stat));
        } else {
            return Err(RpcError::DeniedUnknown(why));
        }
    } else if stat != MSG_ACCEPTED {
        return Err(RpcError::UnknownReplyStat(stat));
    }
    let verf = codec(unpack_auth(unpacker))?;
    let accept = codec(unpacker.unpack_enum())?;
    if accept == SUCCESS {
        Ok((xid, verf))
    } else if accept == PROG_UNAVAIL {
        Err(RpcError::ProgUnavail)
    } else if accept == PROG_MISMATCH {
        let (low, high) = codec(unpack_range(unpacker))?;
        Err(RpcError::ProgMismatch { low, high })
    } else if accept == GARBAGE_ARGS {
        Err(RpcError::GarbageArgs)
    } else {
        Err(RpcError::CallFailed(accept))
    }
}

} // verus!
