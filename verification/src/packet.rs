//! Headers of incoming packets, and connection identifiers.

use vstd::prelude::*;

use crate::block::be_value;

verus! {

/// The length of the connection identifiers that the bench hands out, and the
/// longest that QUIC has.
pub const MAX_CONN_ID_LEN: usize = 20;

/// The types of QUIC packets.
#[derive(Clone, Copy, Debug, PartialEq, Eq, Structural)]
pub enum PacketType {
    Initial,
    Retry,
    Handshake,
    ZeroRtt,
    VersionNegotiation,
    Short,
}

/// What the bench reads of a packet's header.
#[derive(Debug)]
pub struct PacketHeader {
    pub ty: PacketType,
    /// The connection identifier that the packet is meant for.
    pub dcid: Vec<u8>,
}

/// What `quiche::Header::from_slice` reads of the packet, where short headers
/// have identifiers of `dcid_len` bytes: the type and the destination, or the
/// error that it gives.
pub uninterp spec fn header_of(packet: Seq<u8>, dcid_len: nat) -> Result<
    (PacketType, Seq<u8>),
    quiche::Error,
>;

/// The first byte of a packet marks a long header.
pub open spec fn is_long(packet: Seq<u8>) -> bool {
    packet[0] >= 0x80
}

/// The header of a packet whose first byte marks a short one: the identifier
/// follows that byte.
pub open spec fn short_header(packet: Seq<u8>, dcid_len: nat) -> Option<(PacketType, Seq<u8>)> {
    if packet.len() < 1 + dcid_len {
        None
    } else {
        Some((PacketType::Short, packet.subrange(1, (1 + dcid_len) as int)))
    }
}

/// The type that a long header names: by its version, which is zero in a
/// version negotiation, and then by two bits of its first byte.
pub open spec fn long_type(packet: Seq<u8>) -> PacketType {
    let version_is_zero = packet[1] == 0 && packet[2] == 0 && packet[3] == 0 && packet[4] == 0;
    let bits = (packet[0] / 16) % 4;
    if version_is_zero {
        PacketType::VersionNegotiation
    } else if bits == 0 {
        PacketType::Initial
    } else if bits == 1 {
        PacketType::ZeroRtt
    } else if bits == 2 {
        PacketType::Handshake
    } else {
        PacketType::Retry
    }
}

/// A long header is of the one version whose identifiers are limited.
pub open spec fn is_version_one(packet: Seq<u8>) -> bool {
    packet[1] == 0 && packet[2] == 0 && packet[3] == 0 && packet[4] == 1
}

/// At `at` there is an identifier behind its length.
pub open spec fn has_id(packet: Seq<u8>, at: int) -> bool {
    &&& at < packet.len()
    &&& is_version_one(packet) ==> packet[at] <= MAX_CONN_ID_LEN
    &&& at + 1 + packet[at] <= packet.len()
}

/// How many bytes a number of variable length has, by its first byte.
pub open spec fn number_width(first: u8) -> int {
    if first < 0x40 {
        1
    } else if first < 0x80 {
        2
    } else if first < 0xc0 {
        4
    } else {
        8
    }
}

/// The bytes start with a number of variable length, and at least so many bytes
/// follow, as far as a `usize` holds the number.
pub open spec fn has_counted_bytes(bytes: Seq<u8>) -> bool {
    bytes.len() > 0 && {
        let width = number_width(bytes[0]);
        let count = be_value(bytes.take(width).update(0, bytes[0] % 64)) as int;
        width <= bytes.len() && width + count % (usize::MAX + 1) <= bytes.len()
    }
}

/// The long header is whole: both identifiers are there, and then what its type
/// asks for: a token behind its length, a tag, or a list of versions.
pub open spec fn long_is_whole(packet: Seq<u8>) -> bool {
    &&& has_id(packet, 5)
    &&& has_id(packet, 6 + packet[5])
    &&& {
        let source = 6 + packet[5];
        let rest = packet.skip(source + 1 + packet[source]);
        match long_type(packet) {
            PacketType::Initial => has_counted_bytes(rest),
            PacketType::Retry => rest.len() >= 16,
            PacketType::VersionNegotiation => rest.len() % 4 == 0,
            _ => true,
        }
    }
}

/// The type and the destination in the packet's header, where it has one that
/// can be read and short headers have identifiers of `dcid_len` bytes.
pub open spec fn header_fields(packet: Seq<u8>, dcid_len: nat) -> Option<(PacketType, Seq<u8>)> {
    if packet.len() == 0 {
        None
    } else if !is_long(packet) {
        short_header(packet, dcid_len)
    } else if long_is_whole(packet) {
        Some((long_type(packet), packet.subrange(6, 6 + packet[5])))
    } else {
        None
    }
}

/// Calls `quiche::Header::from_slice` on a copy of the packet, and takes the
/// type and the destination out of the header. The result depends on the bytes
/// alone and is named. A header comes out where the packet has the fields of
/// one, with these; which error comes out elsewhere is said by the name only.
#[verifier::external_body]
fn header_from_slice(packet: &[u8], dcid_len: usize) -> (result: Result<
    PacketHeader,
    quiche::Error,
>)
    ensures
        header_of(packet@, dcid_len as nat) == (match result {
            Ok(header) => Ok((header.ty, header.dcid@)),
            Err(error) => Err(error),
        }),
        header_fields(packet@, dcid_len as nat) == (match result {
            Ok(header) => Some((header.ty, header.dcid@)),
            Err(_) => None,
        }),
{
    let mut copy = packet.to_vec();
    let header = quiche::Header::from_slice(&mut copy, dcid_len)?;
    let ty = match header.ty {
        quiche::Type::Initial => PacketType::Initial,
        quiche::Type::Retry => PacketType::Retry,
        quiche::Type::Handshake => PacketType::Handshake,
        quiche::Type::ZeroRTT => PacketType::ZeroRtt,
        quiche::Type::VersionNegotiation => PacketType::VersionNegotiation,
        quiche::Type::Short => PacketType::Short,
    };
    Ok(PacketHeader { ty, dcid: header.dcid.to_vec() })
}

/// Reads the header of an incoming packet, where short headers have the
/// identifiers that the bench hands out.
pub fn read_header(packet: &[u8]) -> (result: Result<PacketHeader, quiche::Error>)
    ensures
        header_of(packet@, MAX_CONN_ID_LEN as nat) == (match result {
            Ok(header) => Ok((header.ty, header.dcid@)),
            Err(error) => Err(error),
        }),
        header_fields(packet@, MAX_CONN_ID_LEN as nat) == (match result {
            Ok(header) => Some((header.ty, header.dcid@)),
            Err(_) => None,
        }),
{
    header_from_slice(packet, MAX_CONN_ID_LEN)
}

/// `ring::error::Unspecified`: the operating system gave no random bytes.
#[verifier::external_type_specification]
#[verifier::external_body]
pub struct ExUnspecified(ring::error::Unspecified);

/// There are no random bytes to be had.
#[derive(Clone, Copy, Debug)]
pub struct NoRandomness;

/// Calls `fill` on a `ring::rand::SystemRandom`, which overwrites the bytes
/// with random ones and keeps their number. What they become is chance.
#[verifier::external_body]
fn fill_random(dest: &mut Vec<u8>) -> (result: Result<(), ring::error::Unspecified>)
    ensures
        final(dest)@.len() == old(dest)@.len(),
{
    ring::rand::SecureRandom::fill(&ring::rand::SystemRandom::new(), dest)
}

/// The identifier that was filled in, unless there was no randomness for it.
pub fn filled_id(filled: Result<(), ring::error::Unspecified>, id: Vec<u8>) -> (result: Result<
    Vec<u8>,
    NoRandomness,
>)
    ensures
        filled is Ok ==> result == Ok::<_, NoRandomness>(id),
        filled is Err ==> result is Err,
{
    match filled {
        Ok(()) => Ok(id),
        Err(_) => Err(NoRandomness),
    }
}

/// `filled` is an answer of a `ring::rand::SystemRandom` that was told to fill
/// the bytes.
pub closed spec fn fills(
    dest: &mut Vec<u8>,
    filled: Result<(), ring::error::Unspecified>,
) -> bool {
    call_ensures(fill_random, (dest,), filled)
}

/// A random connection identifier: what the operating system filled in.
pub fn random_conn_id() -> (result: Result<Vec<u8>, NoRandomness>)
    ensures
        result matches Ok(id) ==> id@.len() == MAX_CONN_ID_LEN,
        exists|dest: &mut Vec<u8>, filled: Result<(), ring::error::Unspecified>|
            {
                &&& #[trigger] fills(dest, filled)
                &&& (*dest)@.len() == MAX_CONN_ID_LEN
                &&& filled is Ok ==> result == Ok::<_, NoRandomness>(*final(dest))
                &&& filled is Err ==> result is Err
            },
{
    let mut id: Vec<u8> = vec![0; MAX_CONN_ID_LEN];
    let fill = fill_random;
    let filled = fill(&mut id);
    assert forall|dest: &mut Vec<u8>|
        #[trigger] call_ensures(fill_random, (dest,), filled) implies fills(dest, filled) by {}
    filled_id(filled, id)
}

} // verus!
