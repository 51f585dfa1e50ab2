//! The ICMP echo wire format: building an echo request and reading the
//! header fields of a received message.
//!
//! ```text
//!  0               1               2               3
//! +---------------+---------------+-------------------------------+
//! |     Type      |     Code      |           Checksum            |
//! +---------------+---------------+-------------------------------+
//! |          Identifier           |        Sequence Number        |
//! +-------------------------------+-------------------------------+
//! |     Data ...
//! ```

use crate::checksum::{
    be16, checksum_holds, checksum_of, fold_carries, hi_byte, lemma_checksum_seals, lo_byte,
    message_checksum, stored_checksum, word_count, word_sum, CHECKSUM_WORD, MIN_MESSAGE_LEN,
};
use pnet::packet::icmp::echo_reply::EchoReplyPacket;
use pnet::packet::icmp::echo_request::MutableEchoRequestPacket;
use pnet::packet::icmp::{IcmpPacket, IcmpType};
use vstd::prelude::*;

verus! {

/// Message type of an echo reply.
pub const ECHO_REPLY: u8 = 0;

/// Message type of an echo request.
pub const ECHO_REQUEST: u8 = 8;

/// Length of the echo header: type, code, checksum, identifier, sequence.
pub const ECHO_HEADER_LEN: usize = 8;

/// Length of every echo request this library sends: the echo header and a
/// payload of 56 zero bytes.
pub const REQUEST_LEN: usize = 64;

/// `bytes` with the big-endian word `value` written at byte offset `at`.
pub open spec fn with_word(bytes: Seq<u8>, at: int, value: u16) -> Seq<u8> {
    bytes.update(at, hi_byte(value)).update(at + 1, lo_byte(value))
}

/// `bytes` with its checksum field set to the checksum of the rest.
pub open spec fn with_checksum(bytes: Seq<u8>) -> Seq<u8> {
    with_word(bytes, 2, message_checksum(bytes))
}

/// An echo request before its checksum is filled in.
pub open spec fn unsummed_request(identifier: u16, sequence_number: u16) -> Seq<u8> {
    with_word(
        with_word(Seq::new(REQUEST_LEN as nat, |i: int| 0u8).update(0, ECHO_REQUEST), 4, identifier),
        6,
        sequence_number,
    )
}

/// The bytes of the echo request with the given identifier and sequence
/// number, checksum included.
pub open spec fn echo_request(identifier: u16, sequence_number: u16) -> Seq<u8> {
    with_checksum(unsummed_request(identifier, sequence_number))
}

/// The type field of a message, or `None` when it is shorter than an ICMP
/// header.
pub open spec fn type_field(raw: Seq<u8>) -> Option<u8> {
    if raw.len() >= MIN_MESSAGE_LEN {
        Some(raw[0])
    } else {
        None
    }
}

/// The identifier field of an echo message, or `None` when it is shorter
/// than an echo header.
pub open spec fn identifier_field(raw: Seq<u8>) -> Option<u16> {
    if raw.len() >= ECHO_HEADER_LEN {
        Some(be16(raw[4], raw[5]))
    } else {
        None
    }
}

/// The sequence number field of an echo message, or `None` when it is
/// shorter than an echo header.
pub open spec fn sequence_field(raw: Seq<u8>) -> Option<u16> {
    if raw.len() >= ECHO_HEADER_LEN {
        Some(be16(raw[6], raw[7]))
    } else {
        None
    }
}

/// Reads the type through `IcmpPacket::new` and `get_icmp_type`.
///
/// Trusted: pnet accepts a buffer of four bytes or more and the type is its
/// first byte.
#[verifier::external_body]
pub(crate) fn message_type(raw: &[u8]) -> (kind: Option<u8>)
    ensures
        kind == type_field(raw@),
{
    match IcmpPacket::new(raw) {
        Some(packet) => Some(packet.get_icmp_type().0),
        None => None,
    }
}

/// Reads the identifier through `EchoReplyPacket::new` and `get_identifier`.
///
/// Trusted: pnet accepts a buffer of eight bytes or more and the identifier
/// is the big-endian word at bytes 4 and 5.
#[verifier::external_body]
pub(crate) fn reply_identifier(raw: &[u8]) -> (identifier: Option<u16>)
    ensures
        identifier == identifier_field(raw@),
{
    match EchoReplyPacket::new(raw) {
        Some(packet) => Some(packet.get_identifier()),
        None => None,
    }
}

/// Reads the sequence number through `EchoReplyPacket::new` and
/// `get_sequence_number`.
///
/// Trusted: pnet accepts a buffer of eight bytes or more and the sequence
/// number is the big-endian word at bytes 6 and 7.
#[verifier::external_body]
pub(crate) fn reply_sequence_number(raw: &[u8]) -> (sequence_number: Option<u16>)
    ensures
        sequence_number == sequence_field(raw@),
{
    match EchoReplyPacket::new(raw) {
        Some(packet) => Some(packet.get_sequence_number()),
        None => None,
    }
}

/// Writes the type through `MutableEchoRequestPacket::set_icmp_type`.
///
/// Trusted: the setter stores the type in the first byte and leaves every
/// other byte alone.
#[verifier::external_body]
fn set_message_type(buffer: &mut Vec<u8>, kind: u8)
    requires
        old(buffer)@.len() >= ECHO_HEADER_LEN,
    ensures
        final(buffer)@ == old(buffer)@.update(0, kind),
{
    if let Some(mut packet) = MutableEchoRequestPacket::new(buffer) {
        packet.set_icmp_type(IcmpType(kind));
    }
}

/// Writes the identifier through `MutableEchoRequestPacket::set_identifier`.
///
/// Trusted: the setter stores the value big-endian at bytes 4 and 5 and
/// leaves every other byte alone.
#[verifier::external_body]
fn set_identifier(buffer: &mut Vec<u8>, identifier: u16)
    requires
        old(buffer)@.len() >= ECHO_HEADER_LEN,
    ensures
        final(buffer)@ == with_word(old(buffer)@, 4, identifier),
{
    if let Some(mut packet) = MutableEchoRequestPacket::new(buffer) {
        packet.set_identifier(identifier);
    }
}

/// Writes the sequence number through
/// `MutableEchoRequestPacket::set_sequence_number`.
///
/// Trusted: the setter stores the value big-endian at bytes 6 and 7 and
/// leaves every other byte alone.
#[verifier::external_body]
fn set_sequence_number(buffer: &mut Vec<u8>, sequence_number: u16)
    requires
        old(buffer)@.len() >= ECHO_HEADER_LEN,
    ensures
        final(buffer)@ == with_word(old(buffer)@, 6, sequence_number),
{
    if let Some(mut packet) = MutableEchoRequestPacket::new(buffer) {
        packet.set_sequence_number(sequence_number);
    }
}

/// Writes the checksum through `MutableEchoRequestPacket::set_checksum`.
///
/// Trusted: the setter stores the value big-endian at bytes 2 and 3 and
/// leaves every other byte alone.
#[verifier::external_body]
fn set_checksum(buffer: &mut Vec<u8>, checksum: u16)
    requires
        old(buffer)@.len() >= ECHO_HEADER_LEN,
    ensures
        final(buffer)@ == with_word(old(buffer)@, 2, checksum),
{
    if let Some(mut packet) = MutableEchoRequestPacket::new(buffer) {
        packet.set_checksum(checksum);
    }
}

/// Every echo request carries a checksum that checks out: the field equals
/// what a second computation over the transmitted bytes gives, and the
/// one's-complement sum over the whole request is all ones.
pub proof fn lemma_request_checksum_valid(identifier: u16, sequence_number: u16)
    ensures
        ({
            let request = echo_request(identifier, sequence_number);
            &&& request.len() == REQUEST_LEN
            &&& stored_checksum(request) == Some(message_checksum(request))
            &&& checksum_holds(request)
        }),
{
    lemma_checksum_seals(unsummed_request(identifier, sequence_number));
}

/// The checksum of an echo request in closed form: only the type, the
/// identifier and the sequence number contribute to the sum.
pub proof fn lemma_request_checksum_value(identifier: u16, sequence_number: u16)
    ensures
        message_checksum(unsummed_request(identifier, sequence_number)) == 0xffff - fold_carries(
            (0x0800 + identifier + sequence_number) as nat,
        ),
{
    let bytes = unsummed_request(identifier, sequence_number);
    assert(word_count(bytes) == 32);
    assert(word_sum(bytes, 32, CHECKSUM_WORD as int) == 0x0800 + identifier + sequence_number) by {
        reveal_with_fuel(word_sum, 33);
    }
    crate::checksum::lemma_fold_carries((0x0800 + identifier + sequence_number) as nat);
}

/// Builds the echo request for one probe: type, sequence number and
/// identifier first, the checksum last, over the fully populated packet.
pub fn build_echo_request(identifier: u16, sequence_number: u16) -> (packet: Vec<u8>)
    ensures
        packet@ == echo_request(identifier, sequence_number),
        packet@.len() == REQUEST_LEN,
        checksum_holds(packet@),
{
    let mut buffer: Vec<u8> = vec![0u8; REQUEST_LEN];
    assert(buffer@ =~= Seq::new(REQUEST_LEN as nat, |i: int| 0u8));
    set_message_type(&mut buffer, ECHO_REQUEST);
    set_sequence_number(&mut buffer, sequence_number);
    set_identifier(&mut buffer, identifier);
    assert(buffer@ =~= unsummed_request(identifier, sequence_number));
    let sum = checksum_of(buffer.as_slice());
    match sum {
        Some(sum) => {
            set_checksum(&mut buffer, sum);
        },
        None => {},
    }
    proof {
        lemma_request_checksum_valid(identifier, sequence_number);
    }
    buffer
}

} // verus!
