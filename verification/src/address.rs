//! Addresses as the forwarder's arguments and log lines hold them.
//!
//! A peer whose address cannot be had is written as `unknown`. The listen
//! argument is either an `ip:port` pair or a bare port, which stands for
//! that port on every local address.

use vstd::prelude::*;
use vstd::string::StringExecFns;
use vstd::string::StringSliceAdditionalSpecFns;

verus! {

/// What is written for a peer whose address cannot be had.
pub open spec fn unknown_label() -> Seq<char> {
    "unknown"@
}

/// The text that stands for a peer: its address where the lookup gave one,
/// else `unknown`.
pub fn extract_addr(peer: Option<String>) -> (label: String)
    ensures
        label@ == match peer {
            Some(address) => address@,
            None => unknown_label(),
        },
{
    match peer {
        Some(address) => address,
        None => String::from_str("unknown"),
    }
}

/// How the forwarder is to listen.
#[derive(Clone, Copy, Debug, PartialEq, Eq, Structural)]
pub enum ListenAddress {
    /// The argument holds a colon: all of it is an `ip:port` pair, to be
    /// resolved as it is written.
    Pair,
    /// The argument is a bare port: listen on it on every local address,
    /// `0.0.0.0`.
    AnyAddress { port: u16 },
}

/// Why a listen argument was refused.
#[derive(Clone, Copy, Debug, PartialEq, Eq, Structural)]
pub enum AddressError {
    /// The argument holds no colon and is not a port number.
    BadPort,
}

/// The byte of a colon.
pub const COLON: u8 = 58;

/// The byte of a plus sign.
pub const PLUS: u8 = 43;

/// The byte of the digit zero.
pub const ZERO: u8 = 48;

/// The greatest port number.
pub const MAX_PORT: u32 = 65535;

/// Whether a byte is a decimal digit.
pub open spec fn is_digit(byte: u8) -> bool {
    ZERO <= byte <= ZERO + 9
}

/// Whether every byte is a decimal digit.
pub open spec fn all_digits(text: Seq<u8>) -> bool {
    forall|i: int| 0 <= i < text.len() ==> is_digit(#[trigger] text[i])
}

/// The number that a run of decimal digits writes.
pub open spec fn decimal_value(digits: Seq<u8>) -> nat
    decreases digits.len(),
{
    if digits.len() == 0 {
        0
    } else {
        (decimal_value(digits.drop_last()) * 10 + (digits.last() - ZERO)) as nat
    }
}

/// A port number's text without the plus sign that may stand before it.
pub open spec fn unsigned_part(text: Seq<u8>) -> Seq<u8> {
    if text.len() > 0 && text[0] == PLUS {
        text.drop_first()
    } else {
        text
    }
}

/// The port that a text writes: one or more decimal digits, after at most
/// one plus sign, that make a number up to 65535. Leading zeros count for
/// nothing. Any other text writes no port.
pub open spec fn port_of(text: Seq<u8>) -> Option<u16> {
    let digits = unsigned_part(text);
    if digits.len() > 0 && all_digits(digits) && decimal_value(digits) <= MAX_PORT {
        Some(decimal_value(digits) as u16)
    } else {
        None
    }
}

/// How a listen argument, given by its UTF-8 bytes, is read. With a colon
/// anywhere in it, it is an `ip:port` pair. Without one it must be a port.
pub open spec fn listen_address_of(text: Seq<u8>) -> Result<ListenAddress, AddressError> {
    if text.contains(COLON) {
        Ok(ListenAddress::Pair)
    } else {
        match port_of(text) {
            Some(port) => Ok(ListenAddress::AnyAddress { port }),
            None => Err(AddressError::BadPort),
        }
    }
}

/// A digit more makes a number no smaller.
pub proof fn lemma_decimal_value_grows(digits: Seq<u8>, upto: int)
    requires
        all_digits(digits),
        0 <= upto <= digits.len(),
    ensures
        decimal_value(digits.take(upto)) <= decimal_value(digits),
    decreases digits.len() - upto,
{
    if upto < digits.len() {
        let longer = digits.take(upto + 1);
        assert(longer.drop_last() =~= digits.take(upto));
        assert(longer.last() == digits[upto]);
        assert(is_digit(digits[upto]));
        lemma_decimal_value_grows(digits, upto + 1);
    } else {
        assert(digits.take(upto) =~= digits);
    }
}

/// Whether a text holds a colon.
pub fn has_colon(text: &[u8]) -> (found: bool)
    ensures
        found == text@.contains(COLON),
{
    let mut at: usize = 0;
    while at < text.len()
        invariant
            at <= text.len(),
            forall|i: int| 0 <= i < at ==> text@[i] != COLON,
        decreases text.len() - at,
    {
        if text[at] == COLON {
            return true;
        }
        at = at + 1;
    }
    false
}

/// Reads a port number.
pub fn parse_port(text: &[u8]) -> (port: Option<u16>)
    ensures
        port == port_of(text@),
{
    let start: usize = if text.len() > 0 && text[0] == PLUS {
        1
    } else {
        0
    };
    let ghost digits = unsigned_part(text@);
    assert(digits =~= text@.subrange(start as int, text@.len() as int));
    if start == text.len() {
        return None;
    }
    let mut at: usize = start;
    let mut value: u32 = 0;
    while at < text.len()
        invariant
            start <= at <= text.len(),
            digits == unsigned_part(text@),
            digits == text@.subrange(start as int, text@.len() as int),
            all_digits(digits.take(at - start)),
            value == decimal_value(digits.take(at - start)),
            value <= MAX_PORT,
        decreases text.len() - at,
    {
        let byte: u8 = text[at];
        let ghost seen = digits.take(at - start);
        let ghost longer = digits.take(at - start + 1);
        assert(longer.drop_last() =~= seen);
        assert(digits[at - start] == byte);
        assert(longer.last() == byte);
        if byte < ZERO || byte > ZERO + 9 {
            assert(!is_digit(digits[at - start]));
            return None;
        }
        let digit: u32 = (byte - ZERO) as u32;
        let grown: u32 = value * 10 + digit;
        assert(all_digits(longer)) by {
            assert forall|i: int| 0 <= i < longer.len() implies is_digit(#[trigger] longer[i]) by {
                if i < seen.len() {
                    assert(longer[i] == seen[i]);
                }
            }
        }
        if grown > MAX_PORT {
            proof {
                if all_digits(digits) {
                    lemma_decimal_value_grows(digits, at - start + 1);
                }
            }
            return None;
        }
        value = grown;
        at = at + 1;
    }
    assert(digits.take(at - start) =~= digits);
    Some(value as u16)
}

/// Reads the listen argument: an `ip:port` pair where it holds a colon, else
/// a bare port, which stands for that port on every local address.
pub fn parse_listen_address(listen: &str) -> (address: Result<ListenAddress, AddressError>)
    ensures
        address == listen_address_of(listen.spec_bytes()),
{
    let text = listen.as_bytes();
    if has_colon(text) {
        Ok(ListenAddress::Pair)
    } else {
        match parse_port(text) {
            Some(port) => Ok(ListenAddress::AnyAddress { port }),
            None => Err(AddressError::BadPort),
        }
    }
}

} // verus!
