//! Client side of ONC RPC over XDR, specialised to the VXI-11 instrument
//! control protocol: the XDR codec, RPC call/reply framing, record marking,
//! reply matching for stream and datagram transports, the port mapper, and
//! the VXI-11 link state machine.
//!
//! Every type here is a pure protocol state machine: it produces the bytes
//! to send and consumes the bytes received, and never touches a socket.

pub mod xdr;
pub mod rpc;
pub mod vxi11;
