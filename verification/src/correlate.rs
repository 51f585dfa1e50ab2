//! Matching a received ICMP message to the probe that is waiting for it.

use crate::checksum::{
    be16, checksum_holds, checksum_of, hi_byte, lemma_checksum_seals, lo_byte, MAX_MESSAGE_LEN,
    MIN_MESSAGE_LEN,
};
use crate::wire::{
    echo_request, message_type, reply_identifier, reply_sequence_number, with_checksum,
    ECHO_HEADER_LEN, ECHO_REPLY, ECHO_REQUEST, REQUEST_LEN,
};
use vstd::prelude::*;
use vstd::slice::slice_to_vec;

verus! {

/// What a received message is to the probe that waits for a reply.
#[derive(Clone, Copy, Debug, PartialEq, Eq, Structural)]
pub enum Arrival {
    /// An echo reply with the identifier and sequence number of the probe.
    Match,
    /// An echo reply to some other probe, of this process or another.
    ForeignEcho { identifier: u16, sequence_number: u16 },
    /// A message of another type, such as Destination Unreachable or Time
    /// Exceeded, tagged with that type.
    Other { kind: u8 },
    /// Too short for an ICMP header, or an echo reply cut off inside its
    /// echo header.
    Malformed,
}

/// An echo reply that carries exactly this identifier and sequence number.
pub open spec fn is_reply_to(raw: Seq<u8>, identifier: u16, sequence_number: u16) -> bool {
    &&& raw.len() >= ECHO_HEADER_LEN
    &&& raw[0] == ECHO_REPLY
    &&& be16(raw[4], raw[5]) == identifier
    &&& be16(raw[6], raw[7]) == sequence_number
}

/// The classification of `raw` for a probe with the given identifier and
/// sequence number.
pub open spec fn arrival_of(raw: Seq<u8>, identifier: u16, sequence_number: u16) -> Arrival {
    if raw.len() < MIN_MESSAGE_LEN {
        Arrival::Malformed
    } else if raw[0] != ECHO_REPLY {
        Arrival::Other { kind: raw[0] }
    } else if raw.len() < ECHO_HEADER_LEN {
        Arrival::Malformed
    } else if be16(raw[4], raw[5]) == identifier && be16(raw[6], raw[7]) == sequence_number {
        Arrival::Match
    } else {
        Arrival::ForeignEcho {
            identifier: be16(raw[4], raw[5]),
            sequence_number: be16(raw[6], raw[7]),
        }
    }
}

/// Any message long enough to have an ICMP header counts as the answer of a
/// hop, whatever its type and whatever probe it belongs to.
pub open spec fn is_hop_answer(raw: Seq<u8>) -> bool {
    raw.len() >= MIN_MESSAGE_LEN
}

/// The reply a host sends back for `request`: the same bytes with the type
/// turned into Echo Reply and the checksum filled in anew.
pub open spec fn reply_to(request: Seq<u8>) -> Seq<u8> {
    with_checksum(request.update(0, ECHO_REPLY))
}

/// Classifies a received message for the probe that is outstanding.
pub fn classify(raw: &[u8], identifier: u16, sequence_number: u16) -> (arrival: Arrival)
    ensures
        arrival == arrival_of(raw@, identifier, sequence_number),
        arrival is Match <==> is_reply_to(raw@, identifier, sequence_number),
{
    match message_type(raw) {
        None => Arrival::Malformed,
        Some(kind) => {
            if kind != ECHO_REPLY {
                Arrival::Other { kind }
            } else {
                match (reply_identifier(raw), reply_sequence_number(raw)) {
                    (Some(found_identifier), Some(found_sequence)) => {
                        if found_identifier == identifier && found_sequence == sequence_number {
                            Arrival::Match
                        } else {
                            Arrival::ForeignEcho {
                                identifier: found_identifier,
                                sequence_number: found_sequence,
                            }
                        }
                    },
                    _ => Arrival::Malformed,
                }
            }
        },
    }
}

/// Tells whether `raw` is the echo reply to the probe with this identifier
/// and sequence number. Both fields must be equal; the checksum of the
/// reply is not looked at.
pub fn is_match(raw: &[u8], expected_identifier: u16, expected_sequence: u16) -> (matched: bool)
    ensures
        matched == is_reply_to(raw@, expected_identifier, expected_sequence),
{
    match classify(raw, expected_identifier, expected_sequence) {
        Arrival::Match => true,
        _ => false,
    }
}

/// Tells whether `raw` counts as the answer of a hop in a TTL sweep.
pub fn is_hop_response(raw: &[u8]) -> (answered: bool)
    ensures
        answered == is_hop_answer(raw@),
{
    message_type(raw).is_some()
}

/// Builds the reply that a host sends back for an echo request, or `None`
/// when `request` is not an echo request of at most an IPv4 datagram's
/// length.
pub fn echo_reply_to(request: &[u8]) -> (reply: Option<Vec<u8>>)
    ensures
        reply is Some <==> (ECHO_HEADER_LEN <= request@.len() <= MAX_MESSAGE_LEN && request@[0]
            == ECHO_REQUEST),
        reply matches Some(bytes) ==> bytes@ == reply_to(request@) && checksum_holds(bytes@),
{
    if request.len() < ECHO_HEADER_LEN || request.len() > MAX_MESSAGE_LEN {
        return None;
    }
    if request[0] != ECHO_REQUEST {
        return None;
    }
    let mut bytes = slice_to_vec(request);
    bytes.set(0, ECHO_REPLY);
    match checksum_of(bytes.as_slice()) {
        Some(sum) => {
            proof {
                lemma_checksum_seals(bytes@);
            }
            bytes.set(2, (sum / 256) as u8);
            bytes.set(3, (sum % 256) as u8);
            Some(bytes)
        },
        None => None,
    }
}

/// Round trip: the reply to the request of a probe matches that probe, and
/// matches no probe that differs in identifier or in sequence number.
pub proof fn lemma_round_trip(
    identifier: u16,
    sequence_number: u16,
    expected_identifier: u16,
    expected_sequence: u16,
)
    ensures
        is_reply_to(
            reply_to(echo_request(identifier, sequence_number)),
            expected_identifier,
            expected_sequence,
        ) <==> (identifier == expected_identifier && sequence_number == expected_sequence),
        arrival_of(
            reply_to(echo_request(identifier, sequence_number)),
            identifier,
            sequence_number,
        ) == Arrival::Match,
{
    let reply = reply_to(echo_request(identifier, sequence_number));
    assert(reply.len() == REQUEST_LEN);
    assert(reply[0] == ECHO_REPLY);
    assert(reply[4] == hi_byte(identifier) && reply[5] == lo_byte(identifier));
    assert(reply[6] == hi_byte(sequence_number) && reply[7] == lo_byte(sequence_number));
    assert(be16(hi_byte(identifier), lo_byte(identifier)) == identifier);
    assert(be16(hi_byte(sequence_number), lo_byte(sequence_number)) == sequence_number);
}

/// A request that comes back unchanged is no reply: it matches no probe.
pub proof fn lemma_request_is_no_reply(
    identifier: u16,
    sequence_number: u16,
    expected_identifier: u16,
    expected_sequence: u16,
)
    ensures
        !is_reply_to(
            echo_request(identifier, sequence_number),
            expected_identifier,
            expected_sequence,
        ),
{
    assert(echo_request(identifier, sequence_number)[0] == ECHO_REQUEST);
}

} // verus!
