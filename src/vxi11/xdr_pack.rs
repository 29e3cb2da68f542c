//! Encoding of the VXI-11 core channel's arguments and results.

use vstd::prelude::*;
use vstd::string::*;

use crate::xdr::{bool_bytes, i32_bytes, opaque_bytes, opaque_fits, u32_bytes, CodecError, Packer};

verus! {

pub open spec fn device_link_bytes(link: i32) -> Seq<u8> {
    i32_bytes(link)
}

pub open spec fn create_link_parms_bytes(
    id: i32,
    lock_device: bool,
    lock_timeout: u32,
    device: Seq<u8>,
) -> Seq<u8> {
    i32_bytes(id)
        + bool_bytes(lock_device)
        + u32_bytes(lock_timeout)
        + opaque_bytes(device)
}

pub open spec fn device_write_parms_bytes(
    link: i32,
    timeout: u32,
    lock_timeout: u32,
    flags: i32,
    data: Seq<u8>,
) -> Seq<u8> {
    i32_bytes(link)
        + u32_bytes(timeout)
        + u32_bytes(lock_timeout)
        + i32_bytes(flags)
        + opaque_bytes(data)
}

pub open spec fn device_read_parms_bytes(
    link: i32,
    request_size: u32,
    timeout: u32,
    lock_timeout: u32,
    flags: i32,
    term_char: i32,
) -> Seq<u8> {
    i32_bytes(link)
        + u32_bytes(request_size)
        + u32_bytes(timeout)
        + u32_bytes(lock_timeout)
        + i32_bytes(flags)
        + i32_bytes(term_char)
}

pub open spec fn device_generic_parms_bytes(
    link: i32,
    flags: i32,
    lock_timeout: u32,
    timeout: u32,
) -> Seq<u8> {
    i32_bytes(link)
        + i32_bytes(flags)
        + u32_bytes(lock_timeout)
        + u32_bytes(timeout)
}

pub open spec fn device_remote_func_parms_bytes(
    host_addr: u32,
    host_port: u32,
    prog_num: u32,
    prog_vers: u32,
    prog_family: i32,
) -> Seq<u8> {
    u32_bytes(host_addr)
        + u32_bytes(host_port)
        + u32_bytes(prog_num)
        + u32_bytes(prog_vers)
        + i32_bytes(prog_family)
}

pub open spec fn device_enable_srq_parms_bytes(
    link: i32,
    enable: bool,
    handle: Seq<u8>,
) -> Seq<u8> {
    i32_bytes(link)
        + bool_bytes(enable)
        + opaque_bytes(handle)
}

pub open spec fn device_lock_parms_bytes(link: i32, flags: i32, lock_timeout: u32) -> Seq<u8> {
    i32_bytes(link)
        + i32_bytes(flags)
        + u32_bytes(lock_timeout)
}

pub open spec fn device_docmd_parms_bytes(
    link: i32,
    flags: i32,
    timeout: u32,
    lock_timeout: u32,
    cmd: i32,
    network_order: bool,
    datasize: i32,
    data_in: Seq<u8>,
) -> Seq<u8> {
    i32_bytes(link)
        + i32_bytes(flags)
        + u32_bytes(timeout)
        + u32_bytes(lock_timeout)
        + i32_bytes(cmd)
        + bool_bytes(network_order)
        + i32_bytes(datasize)
        + opaque_bytes(data_in)
}

pub open spec fn device_error_bytes(error: i32) -> Seq<u8> {
    i32_bytes(error)
}

pub open spec fn device_srq_parms_bytes(handle: Seq<u8>) -> Seq<u8> {
    opaque_bytes(handle)
}

pub open spec fn create_link_resp_bytes(
    error: i32,
    link: i32,
    abort_port: u32,
    max_recv_size: u32,
) -> Seq<u8> {
    i32_bytes(error)
        + i32_bytes(link)
        + u32_bytes(abort_port)
        + u32_bytes(max_recv_size)
}

pub open spec fn device_write_resp_bytes(error: i32, size: u32) -> Seq<u8> {
    i32_bytes(error)
        + u32_bytes(size)
}

pub open spec fn device_read_resp_bytes(error: i32, reason: i32, data: Seq<u8>) -> Seq<u8> {
    i32_bytes(error)
        + i32_bytes(reason)
        + opaque_bytes(data)
}

pub open spec fn device_read_stb_resp_bytes(error: i32, stb: u32) -> Seq<u8> {
    i32_bytes(error)
        + u32_bytes(stb)
}

pub open spec fn device_docmd_resp_bytes(error: i32, data_out: Seq<u8>) -> Seq<u8> {
    i32_bytes(error)
        + opaque_bytes(data_out)
}

/// A link identifier alone, the argument of DESTROY_LINK and others.
pub fn pack_device_link(packer: &mut Packer, link: i32)
    ensures
        final(packer)@ == old(packer)@ + device_link_bytes(link),
{
    packer.pack_i32(link);
    assert(final(packer)@ =~= old(packer)@ + device_link_bytes(link));
}

/// CREATE_LINK arguments: client id, whether to lock the device, lock timeout and the device name.
/// Fails, packing nothing, when the device is too long for a length prefix.
pub fn pack_create_link_parms(
    packer: &mut Packer,
    id: i32,
    lock_device: bool,
    lock_timeout: u32,
    device: &str,
) -> (r: Result<(), CodecError>)
    requires
        device.is_ascii(),
    ensures
        opaque_fits(device.spec_bytes()) ==> r is Ok
            && final(packer)@ == old(packer)@ + create_link_parms_bytes(
                id,
                lock_device,
                lock_timeout,
                device.spec_bytes(),
            ),
        !opaque_fits(device.spec_bytes()) ==> r == Err::<(), CodecError>(CodecError::TooLong)
            && final(packer)@ == old(packer)@,
{
    let device_bytes = device.as_bytes();
    if device_bytes.len() > 0xffff_ffff {
        return Err(CodecError::TooLong);
    }
    packer.pack_i32(id);
    packer.pack_bool(lock_device);
    packer.pack_u32(lock_timeout);
    let _ = packer.pack_variable_len_opaque(device_bytes);
    assert(final(packer)@ =~= old(packer)@
        + create_link_parms_bytes(id, lock_device, lock_timeout, device.spec_bytes()));
    Ok(())
}

/// DEVICE_WRITE arguments: link, I/O and lock timeouts, flags and the data.
/// Fails, packing nothing, when the data is too long for a length prefix.
pub fn pack_device_write_parms(
    packer: &mut Packer,
    link: i32,
    timeout: u32,
    lock_timeout: u32,
    flags: i32,
    data: &[u8],
) -> (r: Result<(), CodecError>)
    ensures
        opaque_fits(data@) ==> r is Ok
            && final(packer)@ == old(packer)@ + device_write_parms_bytes(
                link,
                timeout,
                lock_timeout,
                flags,
                data@,
            ),
        !opaque_fits(data@) ==> r == Err::<(), CodecError>(CodecError::TooLong)
            && final(packer)@ == old(packer)@,
{
    if data.len() > 0xffff_ffff {
        return Err(CodecError::TooLong);
    }
    packer.pack_i32(link);
    packer.pack_u32(timeout);
    packer.pack_u32(lock_timeout);
    packer.pack_i32(flags);
    let _ = packer.pack_variable_len_opaque(data);
    assert(final(packer)@ =~= old(packer)@
        + device_write_parms_bytes(link, timeout, lock_timeout, flags, data@));
    Ok(())
}

/// DEVICE_READ arguments: link, largest size wanted, I/O and lock timeouts,
/// flags and the termination character.
pub fn pack_device_read_parms(
    packer: &mut Packer,
    link: i32,
    request_size: u32,
    timeout: u32,
    lock_timeout: u32,
    flags: i32,
    term_char: i32,
)
    ensures
        final(packer)@ == old(packer)@
            + device_read_parms_bytes(link, request_size, timeout, lock_timeout, flags, term_char),
{
    packer.pack_i32(link);
    packer.pack_u32(request_size);
    packer.pack_u32(timeout);
    packer.pack_u32(lock_timeout);
    packer.pack_i32(flags);
    packer.pack_i32(term_char);
    assert(final(packer)@ =~= old(packer)@
        + device_read_parms_bytes(link, request_size, timeout, lock_timeout, flags, term_char));
}

/// Arguments shared by TRIGGER, CLEAR, REMOTE and LOCAL.
pub fn pack_device_generic_parms(
    packer: &mut Packer,
    link: i32,
    flags: i32,
    lock_timeout: u32,
    timeout: u32,
)
    ensures
        final(packer)@ == old(packer)@
            + device_generic_parms_bytes(link, flags, lock_timeout, timeout),
{
    packer.pack_i32(link);
    packer.pack_i32(flags);
    packer.pack_u32(lock_timeout);
    packer.pack_u32(timeout);
    assert(final(packer)@ =~= old(packer)@
        + device_generic_parms_bytes(link, flags, lock_timeout, timeout));
}

/// CREATE_INTR_CHAN arguments: where the interrupt service listens.
pub fn pack_device_remote_func_parms(
    packer: &mut Packer,
    host_addr: u32,
    host_port: u32,
    prog_num: u32,
    prog_vers: u32,
    prog_family: i32,
)
    ensures
        final(packer)@ == old(packer)@
            + device_remote_func_parms_bytes(
                host_addr,
                host_port,
                prog_num,
                prog_vers,
                prog_family,
            ),
{
    packer.pack_u32(host_addr);
    packer.pack_u32(host_port);
    packer.pack_u32(prog_num);
    packer.pack_u32(prog_vers);
    packer.pack_i32(prog_family);
    assert(final(packer)@ =~= old(packer)@
        + device_remote_func_parms_bytes(host_addr, host_port, prog_num, prog_vers, prog_family));
}

/// DEVICE_ENABLE_SRQ arguments; the handle holds at most 40 bytes.
pub fn pack_device_enable_srq_parms(packer: &mut Packer, link: i32, enable: bool, handle: &[u8])
    requires
        handle@.len() < 40,
    ensures
        final(packer)@ == old(packer)@ + device_enable_srq_parms_bytes(link, enable, handle@),
{
    packer.pack_i32(link);
    packer.pack_bool(enable);
    let _ = packer.pack_variable_len_opaque(handle);
    assert(final(packer)@ =~= old(packer)@ + device_enable_srq_parms_bytes(link, enable, handle@));
}

/// DEVICE_LOCK arguments.
pub fn pack_device_lock_parms(packer: &mut Packer, link: i32, flags: i32, lock_timeout: u32)
    ensures
        final(packer)@ == old(packer)@ + device_lock_parms_bytes(link, flags, lock_timeout),
{
    packer.pack_i32(link);
    packer.pack_i32(flags);
    packer.pack_u32(lock_timeout);
    assert(final(packer)@ =~= old(packer)@ + device_lock_parms_bytes(link, flags, lock_timeout));
}

/// DEVICE_DOCMD arguments.
/// Fails, packing nothing, when the data_in is too long for a length prefix.
pub fn pack_device_docmd_parms(
    packer: &mut Packer,
    link: i32,
    flags: i32,
    timeout: u32,
    lock_timeout: u32,
    cmd: i32,
    network_order: bool,
    datasize: i32,
    data_in: &[u8],
) -> (r: Result<(), CodecError>)
    ensures
        opaque_fits(data_in@) ==> r is Ok
            && final(packer)@ == old(packer)@ + device_docmd_parms_bytes(
                link,
                flags,
                timeout,
                lock_timeout,
                cmd,
                network_order,
                datasize,
                data_in@,
            ),
        !opaque_fits(data_in@) ==> r == Err::<(), CodecError>(CodecError::TooLong)
            && final(packer)@ == old(packer)@,
{
    if data_in.len() > 0xffff_ffff {
        return Err(CodecError::TooLong);
    }
    packer.pack_i32(link);
    packer.pack_i32(flags);
    packer.pack_u32(timeout);
    packer.pack_u32(lock_timeout);
    packer.pack_i32(cmd);
    packer.pack_bool(network_order);
    packer.pack_i32(datasize);
    let _ = packer.pack_variable_len_opaque(data_in);
    assert(final(packer)@ =~= old(packer)@
        + device_docmd_parms_bytes(
            link,
            flags,
            timeout,
            lock_timeout,
            cmd,
            network_order,
            datasize,
            data_in@,
        ));
    Ok(())
}

/// A bare device error code, the result of most procedures.
pub fn pack_device_error(packer: &mut Packer, error: i32)
    ensures
        final(packer)@ == old(packer)@ + device_error_bytes(error),
{
    packer.pack_i32(error);
    assert(final(packer)@ =~= old(packer)@ + device_error_bytes(error));
}

/// DEVICE_INTR_SRQ arguments: the handle given when service requests were enabled.
/// Fails, packing nothing, when the handle is too long for a length prefix.
pub fn pack_device_srq_parms(packer: &mut Packer, handle: &[u8]) -> (r: Result<(), CodecError>)
    ensures
        opaque_fits(handle@) ==> r is Ok
            && final(packer)@ == old(packer)@ + device_srq_parms_bytes(handle@),
        !opaque_fits(handle@) ==> r == Err::<(), CodecError>(CodecError::TooLong)
            && final(packer)@ == old(packer)@,
{
    if handle.len() > 0xffff_ffff {
        return Err(CodecError::TooLong);
    }
    let _ = packer.pack_variable_len_opaque(handle);
    assert(final(packer)@ =~= old(packer)@ + device_srq_parms_bytes(handle@));
    Ok(())
}

/// CREATE_LINK result.
pub fn pack_create_link_resp(
    packer: &mut Packer,
    error: i32,
    link: i32,
    abort_port: u32,
    max_recv_size: u32,
)
    ensures
        final(packer)@ == old(packer)@
            + create_link_resp_bytes(error, link, abort_port, max_recv_size),
{
    packer.pack_i32(error);
    packer.pack_i32(link);
    packer.pack_u32(abort_port);
    packer.pack_u32(max_recv_size);
    assert(final(packer)@ =~= old(packer)@
        + create_link_resp_bytes(error, link, abort_port, max_recv_size));
}

/// DEVICE_WRITE result: error code and the number of bytes written.
pub fn pack_device_write_resp(packer: &mut Packer, error: i32, size: u32)
    ensures
        final(packer)@ == old(packer)@ + device_write_resp_bytes(error, size),
{
    packer.pack_i32(error);
    packer.pack_u32(size);
    assert(final(packer)@ =~= old(packer)@ + device_write_resp_bytes(error, size));
}

/// DEVICE_READ result: error code, reason the read ended, and the data.
/// Fails, packing nothing, when the data is too long for a length prefix.
pub fn pack_device_read_resp(
    packer: &mut Packer,
    error: i32,
    reason: i32,
    data: &[u8],
) -> (r: Result<(), CodecError>)
    ensures
        opaque_fits(data@) ==> r is Ok
            && final(packer)@ == old(packer)@ + device_read_resp_bytes(error, reason, data@),
        !opaque_fits(data@) ==> r == Err::<(), CodecError>(CodecError::TooLong)
            && final(packer)@ == old(packer)@,
{
    if data.len() > 0xffff_ffff {
        return Err(CodecError::TooLong);
    }
    packer.pack_i32(error);
    packer.pack_i32(reason);
    let _ = packer.pack_variable_len_opaque(data);
    assert(final(packer)@ =~= old(packer)@ + device_read_resp_bytes(error, reason, data@));
    Ok(())
}

/// DEVICE_READSTB result: error code and status byte.
pub fn pack_device_read_stb_resp(packer: &mut Packer, error: i32, stb: u32)
    ensures
        final(packer)@ == old(packer)@ + device_read_stb_resp_bytes(error, stb),
{
    packer.pack_i32(error);
    packer.pack_u32(stb);
    assert(final(packer)@ =~= old(packer)@ + device_read_stb_resp_bytes(error, stb));
}

/// DEVICE_DOCMD result.
/// Fails, packing nothing, when the data_out is too long for a length prefix.
pub fn pack_device_docmd_resp(
    packer: &mut Packer,
    error: i32,
    data_out: &[u8],
) -> (r: Result<(), CodecError>)
    ensures
        opaque_fits(data_out@) ==> r is Ok
            && final(packer)@ == old(packer)@ + device_docmd_resp_bytes(error, data_out@),
        !opaque_fits(data_out@) ==> r == Err::<(), CodecError>(CodecError::TooLong)
            && final(packer)@ == old(packer)@,
{
    if data_out.len() > 0xffff_ffff {
        return Err(CodecError::TooLong);
    }
    packer.pack_i32(error);
    let _ = packer.pack_variable_len_opaque(data_out);
    assert(final(packer)@ =~= old(packer)@ + device_docmd_resp_bytes(error, data_out@));
    Ok(())
}

} // verus!
