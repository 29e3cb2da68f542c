//! Encoding of RPC call and reply headers and of port-mapper arguments.

use vstd::prelude::*;

use crate::rpc::{CALL, MSG_ACCEPTED, REPLY, RPCVERSION, SUCCESS};
use crate::xdr::{i32_bytes, opaque_bytes, opaque_fits, u32_bytes, CodecError, Packer};

verus! {

/// An authentication field: flavor, then the opaque body.
pub open spec fn auth_bytes(flavor: i32, body: Seq<u8>) -> Seq<u8> {
    i32_bytes(flavor) + opaque_bytes(body)
}

pub open spec fn callheader_bytes(
    xid: u32,
    prog: u32,
    vers: u32,
    prc: u32,
    cred: (i32, Seq<u8>),
    verf: (i32, Seq<u8>),
) -> Seq<u8> {
    u32_bytes(xid) + i32_bytes(CALL) + u32_bytes(RPCVERSION) + u32_bytes(prog) + u32_bytes(vers)
        + u32_bytes(prc) + auth_bytes(cred.0, cred.1) + auth_bytes(verf.0, verf.1)
}

/// A call header with null authentication in both credential and verifier.
pub open spec fn callheader_no_auth_bytes(xid: u32, prog: u32, vers: u32, prc: u32) -> Seq<u8> {
    callheader_bytes(xid, prog, vers, prc, (0, Seq::empty()), (0, Seq::empty()))
}

/// An accepted, successful reply header.
pub open spec fn replyheader_bytes(xid: u32, verf: (i32, Seq<u8>)) -> Seq<u8> {
    u32_bytes(xid) + i32_bytes(REPLY) + i32_bytes(MSG_ACCEPTED) + auth_bytes(verf.0, verf.1)
        + i32_bytes(SUCCESS)
}

pub open spec fn mapping_bytes(prog: u32, vers: u32, prot: u32, port: u32) -> Seq<u8> {
    u32_bytes(prog) + u32_bytes(vers) + u32_bytes(prot) + u32_bytes(port)
}

pub open spec fn call_args_bytes(prog: u32, vers: u32, prc: u32, args: Seq<u8>) -> Seq<u8> {
    u32_bytes(prog) + u32_bytes(vers) + u32_bytes(prc) + opaque_bytes(args)
}

/// Packs an authentication field; fails, packing nothing, when the body is
/// too long for a length prefix.
pub fn pack_auth(packer: &mut Packer, flavor: i32, stuff: &[u8]) -> (r: Result<(), CodecError>)
    ensures
        opaque_fits(stuff@) ==> r is Ok && final(packer)@ == old(packer)@ + auth_bytes(
            flavor,
            stuff@,
        ),
        !opaque_fits(stuff@) ==> r == Err::<(), CodecError>(CodecError::TooLong) && final(packer)@
            == old(packer)@,
{
    if stuff.len() > 0xffff_ffff {
        return Err(CodecError::TooLong);
    }
    packer.pack_enum(flavor);
    let r = packer.pack_variable_len_opaque(stuff);
    assert(final(packer)@ =~= old(packer)@ + auth_bytes(flavor, stuff@));
    r
}

/// Packs a call header; fails, packing nothing, when either authentication
/// body is too long for a length prefix.
pub fn pack_callheader(
    packer: &mut Packer,
    xid: u32,
    prog: u32,
    vers: u32,
    prc: u32,
    cred: (i32, &[u8]),
    verf: (i32, &[u8]),
) -> (r: Result<(), CodecError>)
    ensures
        opaque_fits(cred.1@) && opaque_fits(verf.1@) ==> r is Ok && final(packer)@ == old(packer)@
            + callheader_bytes(xid, prog, vers, prc, (cred.0, cred.1@), (verf.0, verf.1@)),
        !(opaque_fits(cred.1@) && opaque_fits(verf.1@)) ==> r == Err::<(), CodecError>(
            CodecError::TooLong,
        ) && final(packer)@ == old(packer)@,
{
    if cred.1.len() > 0xffff_ffff || verf.1.len() > 0xffff_ffff {
        return Err(CodecError::TooLong);
    }
    packer.pack_u32(xid);
    packer.pack_enum(CALL);
    packer.pack_u32(RPCVERSION);
    packer.pack_u32(prog);
    packer.pack_u32(vers);
    packer.pack_u32(prc);
    let _ = pack_auth(packer, cred.0, cred.1);
    let _ = pack_auth(packer, verf.0, verf.1);
    assert(final(packer)@ =~= old(packer)@ + callheader_bytes(
        xid,
        prog,
        vers,
        prc,
        (cred.0, cred.1@),
        (verf.0, verf.1@),
    ));
    Ok(())
}

pub fn pack_callheader_no_auth(packer: &mut Packer, xid: u32, prog: u32, vers: u32, prc: u32)
    ensures
        final(packer)@ == old(packer)@ + callheader_no_auth_bytes(xid, prog, vers, prc),
{
    let empty: [u8; 0] = [];
    assert(empty@ =~= Seq::<u8>::empty());
    let _ = pack_callheader(packer, xid, prog, vers, prc, (0, &empty), (0, &empty));
}

/// Packs the header of an accepted, successful reply.
pub fn pack_replyheader(packer: &mut Packer, xid: u32, verf: (i32, &[u8])) -> (r: Result<
    (),
    CodecError,
>)
    ensures
        opaque_fits(verf.1@) ==> r is Ok && final(packer)@ == old(packer)@ + replyheader_bytes(
            xid,
            (verf.0, verf.1@),
        ),
        !opaque_fits(verf.1@) ==> r == Err::<(), CodecError>(CodecError::TooLong)
            && final(packer)@ == old(packer)@,
{
    if verf.1.len() > 0xffff_ffff {
        return Err(CodecError::TooLong);
    }
    packer.pack_u32(xid);
    packer.pack_enum(REPLY);
    packer.pack_i32(MSG_ACCEPTED);
    let _ = pack_auth(packer, verf.0, verf.1);
    packer.pack_enum(SUCCESS);
    assert(final(packer)@ =~= old(packer)@ + replyheader_bytes(xid, (verf.0, verf.1@)));
    Ok(())
}

pub fn pack_mapping(packer: &mut Packer, prog: u32, vers: u32, prot: u32, port: u32)
    ensures
        final(packer)@ == old(packer)@ + mapping_bytes(prog, vers, prot, port),
{
    packer.pack_u32(prog);
    packer.pack_u32(vers);
    packer.pack_u32(prot);
    packer.pack_u32(port);
    assert(final(packer)@ =~= old(packer)@ + mapping_bytes(prog, vers, prot, port));
}

/// Packs the arguments of a port-mapper CALLIT request; fails, packing
/// nothing, when `args` is too long for a length prefix.
pub fn pack_call_args(packer: &mut Packer, prog: u32, vers: u32, prc: u32, args: &[u8]) -> (r:
    Result<(), CodecError>)
    ensures
        opaque_fits(args@) ==> r is Ok && final(packer)@ == old(packer)@ + call_args_bytes(
            prog,
            vers,
            prc,
            args@,
        ),
        !opaque_fits(args@) ==> r == Err::<(), CodecError>(CodecError::TooLong) && final(packer)@
            == old(packer)@,
{
    if args.len() > 0xffff_ffff {
        return Err(CodecError::TooLong);
    }
    packer.pack_u32(prog);
    packer.pack_u32(vers);
    packer.pack_u32(prc);
    let _ = packer.pack_variable_len_opaque(args);
    assert(final(packer)@ =~= old(packer)@ + call_args_bytes(prog, vers, prc, args@));
    Ok(())
}

} // verus!
