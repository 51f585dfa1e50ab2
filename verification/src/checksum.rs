//! The Internet checksum (one's-complement sum of big-endian 16-bit words)
//! as ICMP uses it.

use pnet::packet::icmp::IcmpPacket;
use vstd::prelude::*;

verus! {

/// Longest message, in bytes, that is ever built: the largest IPv4 datagram.
pub const MAX_MESSAGE_LEN: usize = 65535;

/// Word position of the checksum field in an ICMP header.
pub const CHECKSUM_WORD: usize = 1;

/// Shortest buffer that holds an ICMP header: type, code and checksum.
pub const MIN_MESSAGE_LEN: usize = 4;

/// The big-endian 16-bit word made of `hi` and `lo`.
pub open spec fn be16(hi: u8, lo: u8) -> u16 {
    (hi as int * 256 + lo as int) as u16
}

/// High byte of `v`.
pub open spec fn hi_byte(v: u16) -> u8 {
    (v / 256) as u8
}

/// Low byte of `v`.
pub open spec fn lo_byte(v: u16) -> u8 {
    (v % 256) as u8
}

/// Number of 16-bit words that cover `bytes`; an odd trailing byte counts as
/// one more word.
pub open spec fn word_count(bytes: Seq<u8>) -> nat {
    ((bytes.len() + 1) / 2) as nat
}

/// The word at word position `i`. An odd trailing byte is the high byte of a
/// word whose low byte is zero; positions past the end read as zero.
pub open spec fn word_at(bytes: Seq<u8>, i: int) -> nat {
    if 0 <= i && 2 * i + 1 < bytes.len() {
        (bytes[2 * i] as int * 256 + bytes[2 * i + 1] as int) as nat
    } else if 0 <= i && 2 * i < bytes.len() {
        (bytes[2 * i] as int * 256) as nat
    } else {
        0
    }
}

/// Sum of the first `n` words of `bytes`, leaving out the word at position
/// `skip`. A negative `skip` leaves nothing out.
pub open spec fn word_sum(bytes: Seq<u8>, n: nat, skip: int) -> nat
    decreases n,
{
    if n == 0 {
        0
    } else {
        let rest = word_sum(bytes, (n - 1) as nat, skip);
        if n - 1 == skip {
            rest
        } else {
            rest + word_at(bytes, n - 1)
        }
    }
}

/// End-around carry: adds what overflows sixteen bits back in until nothing
/// overflows.
pub open spec fn fold_carries(sum: nat) -> nat
    decreases sum,
{
    if sum < 0x10000 {
        sum
    } else {
        fold_carries(sum / 0x10000 + sum % 0x10000)
    }
}

/// One's-complement sum of all words of `bytes` but the one at `skip`.
pub open spec fn ones_complement_sum(bytes: Seq<u8>, skip: int) -> nat {
    fold_carries(word_sum(bytes, word_count(bytes), skip))
}

/// The Internet checksum of `bytes` with the word at `skip` taken as zero.
pub open spec fn internet_checksum(bytes: Seq<u8>, skip: int) -> u16 {
    (0xffff - ones_complement_sum(bytes, skip)) as u16
}

/// The checksum that belongs in the checksum field of the ICMP message
/// `bytes`: the Internet checksum with that field taken as zero.
pub open spec fn message_checksum(bytes: Seq<u8>) -> u16 {
    internet_checksum(bytes, CHECKSUM_WORD as int)
}

/// The checksum field of an ICMP message, or `None` when the message is too
/// short to hold one.
pub open spec fn stored_checksum(bytes: Seq<u8>) -> Option<u16> {
    if bytes.len() >= MIN_MESSAGE_LEN {
        Some(be16(bytes[2], bytes[3]))
    } else {
        None
    }
}

/// A message checks out when the one's-complement sum over all of it,
/// checksum field included, is all ones.
pub open spec fn checksum_holds(bytes: Seq<u8>) -> bool {
    ones_complement_sum(bytes, -1) == 0xffff
}

/// Calls `pnet::packet::icmp::checksum` on an `IcmpPacket` view of `bytes`.
///
/// Trusted: `IcmpPacket::new` accepts exactly the buffers of four bytes or
/// more, and the checksum is the complement of the folded sum of all
/// big-endian words except the checksum word. The length bound keeps pnet's
/// 32-bit accumulator from overflowing.
#[verifier::external_body]
pub(crate) fn checksum_of(bytes: &[u8]) -> (sum: Option<u16>)
    requires
        bytes@.len() <= MAX_MESSAGE_LEN,
    ensures
        sum == if bytes@.len() >= MIN_MESSAGE_LEN {
            Some(message_checksum(bytes@))
        } else {
            None
        },
{
    match IcmpPacket::new(bytes) {
        Some(packet) => Some(pnet::packet::icmp::checksum(&packet)),
        None => None,
    }
}

/// Folding keeps a sum within sixteen bits and keeps its residue modulo
/// `0xffff`; only a zero sum folds to zero.
pub proof fn lemma_fold_carries(sum: nat)
    ensures
        fold_carries(sum) <= 0xffff,
        fold_carries(sum) <= sum,
        fold_carries(sum) % 0xffff == sum % 0xffff,
        sum > 0 ==> fold_carries(sum) > 0,
    decreases sum,
{
    if sum >= 0x10000 {
        let next = sum / 0x10000 + sum % 0x10000;
        assert(sum - next == 0xffff * (sum / 0x10000));
        lemma_fold_carries(next);
    }
}

/// A sum folds to all ones exactly when it is a positive multiple of
/// `0xffff`.
pub proof fn lemma_fold_all_ones(sum: nat)
    ensures
        fold_carries(sum) == 0xffff <==> (sum > 0 && sum % 0xffff == 0),
{
    lemma_fold_carries(sum);
}

/// The words of two buffers that differ in the checksum field at most add up
/// to the same sum once that field is left out.
pub proof fn lemma_word_sum_ignores_checksum_field(a: Seq<u8>, b: Seq<u8>, n: nat)
    requires
        a.len() == b.len(),
        forall|i: int| 0 <= i < a.len() && i != 2 && i != 3 ==> a[i] == b[i],
    ensures
        word_sum(a, n, CHECKSUM_WORD as int) == word_sum(b, n, CHECKSUM_WORD as int),
    decreases n,
{
    if n > 0 {
        lemma_word_sum_ignores_checksum_field(a, b, (n - 1) as nat);
    }
}

/// The sum over every word is the sum without the checksum word plus that
/// word.
pub proof fn lemma_word_sum_splits(bytes: Seq<u8>, n: nat)
    requires
        n > CHECKSUM_WORD,
    ensures
        word_sum(bytes, n, -1) == word_sum(bytes, n, CHECKSUM_WORD as int) + word_at(
            bytes,
            CHECKSUM_WORD as int,
        ),
    decreases n,
{
    if n > CHECKSUM_WORD + 1 {
        lemma_word_sum_splits(bytes, (n - 1) as nat);
    } else {
        lemma_word_sum_without_skip(bytes, (n - 1) as nat, CHECKSUM_WORD as int);
    }
}

/// Leaving out a word that lies past the words summed changes nothing.
pub proof fn lemma_word_sum_without_skip(bytes: Seq<u8>, n: nat, skip: int)
    requires
        skip >= n,
    ensures
        word_sum(bytes, n, skip) == word_sum(bytes, n, -1),
    decreases n,
{
    if n > 0 {
        lemma_word_sum_without_skip(bytes, (n - 1) as nat, skip);
    }
}

/// The receiver's rule in numbers: a sum `rest` over everything but the
/// checksum word, and a checksum word `stored`, fold to all ones together
/// when `stored` is the complement of the folded `rest`, or when both are
/// all ones.
pub proof fn lemma_receiver_rule(rest: nat, stored: nat)
    requires
        stored <= 0xffff,
    ensures
        fold_carries(rest + stored) == 0xffff <==> (stored == 0xffff - fold_carries(rest) || (
        fold_carries(rest) == 0xffff && stored == 0xffff)),
{
    let folded = fold_carries(rest);
    let total = rest + stored;
    lemma_fold_carries(rest);
    lemma_fold_all_ones(total);
    let k = (rest - folded) / 0xffff;
    assert(rest == folded + 0xffff * k);
    assert(total == 0xffff * k + (folded + stored));
    vstd::arithmetic::div_mod::lemma_mod_multiples_vanish(k, (folded + stored) as int, 0xffff);
}

/// How the receiver's rule reads on a message of four bytes or more: with
/// `expected` the checksum computed over the rest and `stored` the field, the
/// message checks out when the two agree, or when `expected` is `0x0000` and
/// `stored` is the other one's-complement zero, `0xffff`.
pub proof fn lemma_checksum_holds_iff(bytes: Seq<u8>)
    requires
        bytes.len() >= MIN_MESSAGE_LEN,
    ensures
        checksum_holds(bytes) <==> ({
            let expected = message_checksum(bytes);
            let stored = be16(bytes[2], bytes[3]);
            stored == expected || (expected == 0 && stored == 0xffff)
        }),
{
    let n = word_count(bytes);
    let rest = word_sum(bytes, n, CHECKSUM_WORD as int);
    let stored = be16(bytes[2], bytes[3]);
    lemma_word_sum_splits(bytes, n);
    assert(word_at(bytes, CHECKSUM_WORD as int) == stored);
    assert(word_sum(bytes, n, -1) == rest + stored as nat);
    lemma_fold_carries(rest);
    lemma_receiver_rule(rest, stored as nat);
}

/// Writing the computed checksum into the checksum field yields a message
/// that checks out, and whose field is what a second computation gives.
pub proof fn lemma_checksum_seals(bytes: Seq<u8>)
    requires
        bytes.len() >= MIN_MESSAGE_LEN,
    ensures
        ({
            let sealed = bytes.update(2, hi_byte(message_checksum(bytes))).update(
                3,
                lo_byte(message_checksum(bytes)),
            );
            &&& message_checksum(sealed) == message_checksum(bytes)
            &&& stored_checksum(sealed) == Some(message_checksum(sealed))
            &&& checksum_holds(sealed)
        }),
{
    let sum = message_checksum(bytes);
    let sealed = bytes.update(2, hi_byte(sum)).update(3, lo_byte(sum));
    lemma_word_sum_ignores_checksum_field(bytes, sealed, word_count(bytes));
    assert(word_count(sealed) == word_count(bytes));
    assert(be16(hi_byte(sum), lo_byte(sum)) == sum);
    lemma_checksum_holds_iff(sealed);
}

/// Tells whether a received ICMP message passes the receiver's checksum
/// rule: the one's-complement sum over the whole message, checksum field
/// included, is all ones. A message too short for an ICMP header never
/// passes.
pub fn has_valid_checksum(raw: &[u8]) -> (valid: bool)
    ensures
        valid == (raw@.len() >= MIN_MESSAGE_LEN && checksum_holds(raw@)),
{
    let len = raw.len();
    if len < MIN_MESSAGE_LEN {
        return false;
    }
    let pairs = len / 2;
    let mut sum: u128 = 0;
    let mut i: usize = 0;
    while i < pairs
        invariant
            len == raw@.len(),
            pairs == len / 2,
            i <= pairs,
            sum == word_sum(raw@, i as nat, -1),
            sum <= i * 0xffff,
        decreases pairs - i,
    {
        let word: u128 = (raw[2 * i] as u128) * 256 + (raw[2 * i + 1] as u128);
        sum = sum + word;
        i = i + 1;
    }
    if len % 2 == 1 {
        sum = sum + (raw[len - 1] as u128) * 256;
    }
    assert(sum == word_sum(raw@, word_count(raw@), -1));
    let ghost total = sum as nat;
    while sum >= 0x10000
        invariant
            fold_carries(sum as nat) == fold_carries(total),
        decreases sum,
    {
        sum = sum / 0x10000 + sum % 0x10000;
    }
    sum == 0xffff
}

} // verus!
