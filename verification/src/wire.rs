//! The boundary to the wire codec.
//!
//! Datagrams are built and taken apart by `lifx_core`.  This module states
//! what the engine relies on: where the addressing fields of a datagram lie,
//! which datagrams the codec can take apart, and what a decoded payload means
//! to the engine.

use crate::error::Error;
use lifx_core::Error as CodecError;
use lifx_core::{BuildOptions, RawMessage};
use vstd::prelude::*;

verus! {

/// A decoded protocol message, carried through unchanged.
#[verifier::external_type_specification]
#[verifier::external_body]
pub struct ExMessage(lifx_core::Message);

/// The source identifier that every datagram of this client carries.
pub const SOURCE_ID: u32 = 7355608;

/// The length of the three headers that precede every payload.
pub const HEADER_LEN: usize = 36;

/// The number of the UDP service, the one over which a light is controlled.
pub const SERVICE_UDP: u8 = 1;

/// How a message is addressed when it is put on the wire.
#[derive(Clone, Copy, Debug, PartialEq, Eq)]
pub struct Options {
    /// The device that is meant, or `None` for all devices.
    pub target: Option<u64>,
    /// Whether the device shall acknowledge the message.
    pub ack_required: bool,
    /// Whether the device shall answer with a state message.
    pub res_required: bool,
    /// The number by which the reply is matched to the request.
    pub sequence: u8,
    /// The client's source identifier.
    pub source: u32,
}

/// What a decoded payload means to the engine.
#[derive(Clone, Copy, Debug, PartialEq, Eq)]
pub enum Kind {
    /// The device acknowledges the request with this sequence number.
    Acknowledgement { seq: u8 },
    /// The device announces a service, by its number, on this port.
    StateService { service: u8, port: u32 },
    /// A service query, such as the one that discovery broadcasts.
    GetService,
    /// Any other message.
    Other,
}

/// A decoded payload, together with what it means to the engine.
#[derive(Debug)]
pub struct Reply {
    pub kind: Kind,
    pub message: lifx_core::Message,
}

/// A datagram that the codec took apart.
#[derive(Debug)]
pub struct Incoming {
    /// The device identity in the frame address.
    pub target: u64,
    /// The sequence number in the frame address.
    pub sequence: u8,
    /// The payload, or why it could not be decoded.
    pub decoded: Result<Reply, CodecError>,
}

/// The size field: the first two bytes, little-endian.
pub open spec fn frame_size(d: Seq<u8>) -> int
    recommends
        d.len() >= 2,
{
    d[0] as int + 256 * (d[1] as int)
}

/// The protocol number: the low twelve bits of the second field.
pub open spec fn frame_protocol(d: Seq<u8>) -> int
    recommends
        d.len() >= 4,
{
    d[2] as int + 256 * (d[3] as int % 16)
}

/// The addressable flag: bit twelve of the second field.
pub open spec fn frame_addressable(d: Seq<u8>) -> bool
    recommends
        d.len() >= 4,
{
    (d[3] as int / 16) % 2 == 1
}

/// The source identifier: bytes 4 to 7, little-endian.
pub open spec fn frame_source(d: Seq<u8>) -> int
    recommends
        d.len() >= 8,
{
    d[4] as int + 0x100 * (d[5] as int) + 0x1_0000 * (d[6] as int) + 0x100_0000 * (d[7] as int)
}

/// The device identity: bytes 8 to 15, little-endian.
pub open spec fn frame_target(d: Seq<u8>) -> int
    recommends
        d.len() >= 16,
{
    d[8] as int + 0x100 * (d[9] as int) + 0x1_0000 * (d[10] as int) + 0x100_0000 * (d[11] as int)
        + 0x1_0000_0000 * (d[12] as int) + 0x100_0000_0000 * (d[13] as int) + 0x1_0000_0000_0000
        * (d[14] as int) + 0x100_0000_0000_0000 * (d[15] as int)
}

/// The acknowledgement-required flag: bit one of byte 22.
pub open spec fn frame_ack_required(d: Seq<u8>) -> bool
    recommends
        d.len() >= 23,
{
    (d[22] as int / 2) % 2 == 1
}

/// The response-required flag: bit zero of byte 22.
pub open spec fn frame_res_required(d: Seq<u8>) -> bool
    recommends
        d.len() >= 23,
{
    d[22] as int % 2 == 1
}

/// The sequence number: byte 23.
pub open spec fn frame_sequence(d: Seq<u8>) -> u8
    recommends
        d.len() >= 24,
{
    d[23]
}

/// The datagrams that the codec takes apart: all three headers are there, the
/// protocol number is 1024, the frame is addressable, and the size field
/// covers the headers and lies within the datagram.
pub open spec fn frame_parses(d: Seq<u8>) -> bool {
    &&& d.len() >= HEADER_LEN
    &&& frame_protocol(d) == 1024
    &&& frame_addressable(d)
    &&& HEADER_LEN <= frame_size(d) <= d.len()
}

/// The datagrams that the codec turns down with an error of its own: those
/// too short for a frame, those of another protocol, and addressable frames
/// that end within the headers.
pub open spec fn frame_refused(d: Seq<u8>) -> bool {
    ||| d.len() < 8
    ||| frame_protocol(d) != 1024
    ||| (frame_addressable(d) && d.len() < HEADER_LEN)
}

/// A datagram carries the addressing that `o` asks for.
pub open spec fn addressed(d: Seq<u8>, o: Options) -> bool {
    &&& frame_parses(d)
    &&& frame_source(d) == o.source
    &&& frame_target(d) == (match o.target {
        Some(id) => id,
        None => 0,
    })
    &&& frame_ack_required(d) == o.ack_required
    &&& frame_res_required(d) == o.res_required
    &&& frame_sequence(d) == o.sequence
}

/// The datagram that the codec makes of a message with this addressing.
pub uninterp spec fn encoded(options: Options, message: lifx_core::Message) -> Seq<u8>;

/// What the codec decodes the payload of a datagram to, once it has taken
/// the datagram apart: the message with its kind, or `None` where it cannot
/// decode the payload.
pub uninterp spec fn decoded(datagram: Seq<u8>) -> Option<Reply>;

/// The reply in a decoding result.
pub open spec fn reply_of(decoded: Result<Reply, CodecError>) -> Option<Reply> {
    match decoded {
        Ok(reply) => Some(reply),
        Err(_) => None,
    }
}

/// The kind of a decoding result.
pub open spec fn kind_of(decoded: Result<Reply, CodecError>) -> Option<Kind> {
    match decoded {
        Ok(reply) => Some(reply.kind),
        Err(_) => None,
    }
}

/// `RawMessage::build` followed by `RawMessage::pack`: the three headers,
/// filled from `options`, and then the payload of `message`.
///
/// Trusted: the codec succeeds on every message, since both steps only
/// write into a vector; the datagram depends on the addressing and the
/// message alone; it is one that the codec takes apart again (protocol 1024,
/// the addressable flag set, a size field that covers the headers and lies
/// within the datagram), and source, target (zero for `None`), the two flags
/// and the sequence number stand at their places.
#[verifier::external_body]
fn pack(options: &Options, message: lifx_core::Message) -> (r: Result<Vec<u8>, CodecError>)
    ensures
        r is Ok,
        r matches Ok(d) ==> d@ == encoded(*options, message),
        r matches Ok(d) ==> addressed(d@, *options),
{
    let options = BuildOptions {
        target: options.target,
        ack_required: options.ack_required,
        res_required: options.res_required,
        sequence: options.sequence,
        source: options.source,
    };
    RawMessage::build(&options, message)?.pack()
}

/// `RawMessage::unpack` followed by `Message::from_raw`.
///
/// Trusted: the codec takes apart exactly the datagrams of `frame_parses`
/// and, on the others that are admitted here, returns an error; target and
/// sequence number are those of the frame address; whether the payload
/// decodes, and to which message of which kind, depends on the datagram
/// alone.  A service is given by its number in the protocol.
/// Datagrams on which the codec would panic are not admitted: frames that
/// are not addressable, and size fields that point outside the datagram.
#[verifier::external_body]
fn unpack(datagram: &[u8]) -> (r: Result<Incoming, CodecError>)
    requires
        frame_parses(datagram@) || frame_refused(datagram@),
    ensures
        r is Ok <==> frame_parses(datagram@),
        r matches Ok(p) ==> {
            &&& p.target == frame_target(datagram@)
            &&& p.sequence == frame_sequence(datagram@)
            &&& reply_of(p.decoded) == decoded(datagram@)
        },
{
    let raw = RawMessage::unpack(datagram)?;
    let decoded = lifx_core::Message::from_raw(&raw).map(|message| {
        let kind = match message {
            lifx_core::Message::Acknowledgement { seq } => Kind::Acknowledgement { seq },
            lifx_core::Message::StateService { service, port } => Kind::StateService {
                service: service as u8,
                port,
            },
            lifx_core::Message::GetService => Kind::GetService,
            _ => Kind::Other,
        };
        Reply { kind, message }
    });
    Ok(Incoming { target: raw.frame_addr.target, sequence: raw.frame_addr.sequence, decoded })
}

/// `lifx_core::Error::ProtocolError`, for a frame that is turned down before
/// the codec sees it.
#[verifier::external_body]
fn protocol_error(reason: &str) -> CodecError {
    CodecError::ProtocolError(reason.to_string())
}

/// Puts `message` on the wire with the addressing of `options`.
///
/// Always succeeds: the datagram is the codec's encoding of this message
/// with this addressing.
pub fn encode(options: &Options, message: lifx_core::Message) -> (r: Result<Vec<u8>, Error>)
    ensures
        r matches Ok(d) && d@ == encoded(*options, message) && addressed(d@, *options),
{
    match pack(options, message) {
        Ok(d) => Ok(d),
        Err(e) => Err(Error::LifxError(e)),
    }
}

/// Whether the codec can take `datagram` apart.
pub fn parses(datagram: &[u8]) -> (b: bool)
    ensures
        b == frame_parses(datagram@),
{
    if datagram.len() < HEADER_LEN {
        return false;
    }
    let size: usize = datagram[0] as usize + 256 * (datagram[1] as usize);
    let protocol: u16 = datagram[2] as u16 + 256 * ((datagram[3] % 16) as u16);
    let addressable: bool = (datagram[3] / 16) % 2 == 1;
    protocol == 1024 && addressable && HEADER_LEN <= size && size <= datagram.len()
}

/// Whether the codec turns `datagram` down with an error of its own.
fn refused(datagram: &[u8]) -> (b: bool)
    ensures
        b == frame_refused(datagram@),
{
    if datagram.len() < 8 {
        return true;
    }
    let protocol: u16 = datagram[2] as u16 + 256 * ((datagram[3] % 16) as u16);
    let addressable: bool = (datagram[3] / 16) % 2 == 1;
    protocol != 1024 || (addressable && datagram.len() < HEADER_LEN)
}

/// Takes a received datagram apart.
///
/// Succeeds on exactly the datagrams of `frame_parses`; every other datagram
/// is a codec error, also where the frame is inconsistent in itself (not
/// addressable, or a size field that points outside the datagram).
pub fn parse(datagram: &[u8]) -> (r: Result<Incoming, Error>)
    ensures
        r is Ok <==> frame_parses(datagram@),
        r matches Ok(p) ==> {
            &&& p.target == frame_target(datagram@)
            &&& p.sequence == frame_sequence(datagram@)
            &&& reply_of(p.decoded) == decoded(datagram@)
        },
        r matches Err(e) ==> e is LifxError,
{
    if parses(datagram) || refused(datagram) {
        match unpack(datagram) {
            Ok(p) => Ok(p),
            Err(e) => Err(Error::LifxError(e)),
        }
    } else {
        Err(Error::LifxError(protocol_error("inconsistent frame header")))
    }
}

/// Compares what the transport accepted with what was handed to it.
///
/// A datagram goes out whole or not at all, so anything but the full length
/// is an error.
pub fn check_transmission(bytes_sent: usize, length: usize) -> (r: Result<(), Error>)
    ensures
        bytes_sent == length ==> r is Ok,
        bytes_sent != length ==> r == Err::<(), Error>(Error::IncompleteTransmission),
{
    if bytes_sent != length {
        Err(Error::IncompleteTransmission)
    } else {
        Ok(())
    }
}

} // verus!
