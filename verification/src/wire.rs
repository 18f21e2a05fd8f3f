//! The one-byte wire protocol spoken with the remote peer.
//!
//! A payload is either a single raw byte out of the vocabulary, or a short
//! run of ASCII decimal digits that spells one of its values. Everything else
//! is a protocol violation.

use vstd::prelude::*;
use crate::power::PowerLevel;

verus! {

/// The reserved value by which either side announces that it ends the session.
pub const SENTINEL: u8 = 111;

/// What a chunk of received bytes means.
#[derive(Clone, Copy, Debug, PartialEq, Eq, Structural)]
pub enum Payload {
    /// A read of length zero: nothing was said.
    Empty,
    /// The peer asks for this power level.
    Power(PowerLevel),
    /// The peer ends the session.
    Terminate,
    /// Bytes that spell no value of the vocabulary.
    Invalid,
}

/// Whether a value is one that the protocol knows: a power level or the
/// sentinel.
pub open spec fn in_vocabulary(value: u8) -> bool {
    value == 0 || value == 80 || value == 100 || value == SENTINEL
}

/// Whether every byte is an ASCII decimal digit.
pub open spec fn all_digits(bytes: Seq<u8>) -> bool {
    forall|i: int| 0 <= i < bytes.len() ==> 48 <= #[trigger] bytes[i] <= 57
}

/// The number that a run of ASCII decimal digits spells, most significant
/// digit first.
pub open spec fn digits_value(digits: Seq<u8>) -> nat
    decreases digits.len(),
{
    if digits.len() == 0 {
        0
    } else {
        digits_value(digits.drop_last()) * 10 + (digits.last() - 48) as nat
    }
}

/// The value that a payload carries: a single raw byte of the vocabulary
/// stands for itself, a run of digits for the number it spells.
pub open spec fn spec_value(bytes: Seq<u8>) -> Option<u8> {
    if bytes.len() == 1 && in_vocabulary(bytes[0]) {
        Some(bytes[0])
    } else if bytes.len() > 0 && all_digits(bytes) && digits_value(bytes) <= 255
        && in_vocabulary(digits_value(bytes) as u8) {
        Some(digits_value(bytes) as u8)
    } else {
        None
    }
}

/// The meaning of a payload.
pub open spec fn spec_decode(bytes: Seq<u8>) -> Payload {
    if bytes.len() == 0 {
        Payload::Empty
    } else {
        match spec_value(bytes) {
            None => Payload::Invalid,
            Some(value) => if value == SENTINEL {
                Payload::Terminate
            } else {
                match PowerLevel::spec_from_byte(value) {
                    Some(level) => Payload::Power(level),
                    None => Payload::Invalid,
                }
            },
        }
    }
}

/// The byte that announces a power level to the peer.
pub open spec fn spec_encode(level: PowerLevel) -> u8 {
    level.spec_byte()
}

/// A longer run of digits never spells a smaller number than its beginning.
proof fn lemma_value_grows(digits: Seq<u8>, n: int)
    requires
        0 <= n <= digits.len(),
        all_digits(digits),
    ensures
        digits_value(digits.take(n)) <= digits_value(digits),
    decreases digits.len(),
{
    if n == digits.len() {
        assert(digits.take(n) =~= digits);
    } else {
        let front = digits.drop_last();
        assert(front.take(n) =~= digits.take(n));
        assert(all_digits(front)) by {
            assert forall|i: int| 0 <= i < front.len() implies 48 <= #[trigger] front[i] <= 57 by {
                assert(front[i] == digits[i]);
            }
        }
        lemma_value_grows(front, n);
    }
}

pub fn is_vocabulary(value: u8) -> (known: bool)
    ensures
        known == in_vocabulary(value),
{
    value == 0 || value == 80 || value == 100 || value == SENTINEL
}

/// Reads a run of ASCII decimal digits as a number of one byte.
pub fn parse_decimal(bytes: &[u8]) -> (number: Option<u8>)
    ensures
        number is Some <==> bytes@.len() > 0 && all_digits(bytes@) && digits_value(bytes@) <= 255,
        number is Some ==> number->0 == digits_value(bytes@),
{
    if bytes.len() == 0 {
        return None;
    }
    let mut total: u16 = 0;
    let mut i: usize = 0;
    while i < bytes.len()
        invariant
            0 <= i <= bytes.len(),
            all_digits(bytes@.take(i as int)),
            total == digits_value(bytes@.take(i as int)),
            total <= 255,
        decreases bytes.len() - i,
    {
        let b: u8 = bytes[i];
        proof {
            let head = bytes@.take(i as int + 1);
            assert(head.drop_last() =~= bytes@.take(i as int));
            assert(head.last() == b);
        }
        if b < 48 || b > 57 {
            proof {
                assert(bytes@[i as int] == b);
            }
            return None;
        }
        let next: u16 = total * 10 + (b - 48) as u16;
        if next > 255 {
            proof {
                if all_digits(bytes@) {
                    lemma_value_grows(bytes@, i as int + 1);
                }
            }
            return None;
        }
        proof {
            let head = bytes@.take(i as int + 1);
            assert forall|k: int| 0 <= k < head.len() implies 48 <= #[trigger] head[k] <= 57 by {
                if k < i {
                    assert(head[k] == bytes@.take(i as int)[k]);
                }
            }
        }
        total = next;
        i = i + 1;
    }
    proof {
        assert(bytes@.take(i as int) =~= bytes@);
    }
    Some(total as u8)
}

/// The value that a payload carries, if it carries one of the vocabulary.
pub fn value(bytes: &[u8]) -> (carried: Option<u8>)
    ensures
        carried == spec_value(bytes@),
{
    if bytes.len() == 1 && is_vocabulary(bytes[0]) {
        return Some(bytes[0]);
    }
    match parse_decimal(bytes) {
        Some(number) => if is_vocabulary(number) {
            Some(number)
        } else {
            None
        },
        None => None,
    }
}

/// Tells what a chunk of received bytes means.
pub fn decode(bytes: &[u8]) -> (payload: Payload)
    ensures
        payload == spec_decode(bytes@),
{
    if bytes.len() == 0 {
        return Payload::Empty;
    }
    match value(bytes) {
        None => Payload::Invalid,
        Some(carried) => if carried == SENTINEL {
            Payload::Terminate
        } else {
            match PowerLevel::from_byte(carried) {
                Some(level) => Payload::Power(level),
                None => Payload::Invalid,
            }
        },
    }
}

/// The byte that announces a power level to the peer.
pub fn encode(level: PowerLevel) -> (byte: u8)
    ensures
        byte == spec_encode(level),
{
    level.byte()
}

/// What is sent is understood: a level's byte decodes to that level, the
/// sentinel to the end of the session, and the sentinel is no level's byte.
pub proof fn lemma_decode_inverts_encode(level: PowerLevel)
    ensures
        spec_decode(seq![spec_encode(level)]) == Payload::Power(level),
        spec_decode(seq![SENTINEL]) == Payload::Terminate,
        spec_encode(level) != SENTINEL,
{
    assert(seq![spec_encode(level)].len() == 1);
    assert(seq![spec_encode(level)][0] == spec_encode(level));
    assert(seq![SENTINEL].len() == 1);
    assert(seq![SENTINEL][0] == SENTINEL);
}

/// A single raw byte outside the vocabulary that is no digit is a protocol
/// violation, never a power level.
pub proof fn lemma_stray_byte_is_invalid(byte: u8)
    requires
        !in_vocabulary(byte),
        byte < 48 || byte > 57,
    ensures
        spec_decode(seq![byte]) == Payload::Invalid,
{
    let s = seq![byte];
    assert(s.len() == 1);
    assert(s[0] == byte);
    assert(!all_digits(s));
}

} // verus!
