//! Network addresses: MAC addresses (through the `macaddr` crate) and IP address text.

use vstd::prelude::*;

use crate::text::push_char;

verus! {

/// A MAC address, in EUI-48 or EUI-64 format.
#[derive(Debug, Clone, Copy, PartialEq, Eq, Hash)]
pub enum MacAddress {
    V6([u8; 6]),
    V8([u8; 8]),
}

/// The bytes of a MAC address.
pub open spec fn mac_bytes(m: MacAddress) -> Seq<u8> {
    match m {
        MacAddress::V6(b) => b@,
        MacAddress::V8(b) => b@,
    }
}

/// Upper-case hexadecimal digit for `d` (`d < 16`).
pub open spec fn hex_upper(d: nat) -> char {
    if d == 0 { '0' } else if d == 1 { '1' } else if d == 2 { '2' } else if d == 3 { '3' }
    else if d == 4 { '4' } else if d == 5 { '5' } else if d == 6 { '6' } else if d == 7 { '7' }
    else if d == 8 { '8' } else if d == 9 { '9' } else if d == 10 { 'A' } else if d == 11 { 'B' }
    else if d == 12 { 'C' } else if d == 13 { 'D' } else if d == 14 { 'E' } else { 'F' }
}

/// Two upper-case hexadecimal digits for a byte.
pub open spec fn byte_hex(b: u8) -> Seq<char> {
    seq![hex_upper((b / 16) as nat), hex_upper((b % 16) as nat)]
}

/// Bytes as upper-case hexadecimal pairs separated by `:`.
pub open spec fn colon_hex(bytes: Seq<u8>) -> Seq<char>
    decreases bytes.len(),
{
    if bytes.len() == 0 {
        Seq::empty()
    } else if bytes.len() == 1 {
        byte_hex(bytes[0])
    } else {
        colon_hex(bytes.drop_last()) + seq![':'] + byte_hex(bytes.last())
    }
}

/// The text of a MAC address, as `macaddr` displays it: `AB:0D:EF:12:34:56`.
pub open spec fn mac_text(m: MacAddress) -> Seq<char> {
    colon_hex(mac_bytes(m))
}

/// What `"...".parse::<macaddr::MacAddr>()` gives for a text: the address, or `None` when the
/// text is not a MAC address.
pub uninterp spec fn mac_parse(s: Seq<char>) -> Option<MacAddress>;

/// Parses a MAC address (`<macaddr::MacAddr as FromStr>::from_str`), in any of the forms that
/// crate accepts. The contract names the outcome and states nothing of the accepted forms.
#[verifier::external_body]
pub(crate) fn parse_mac(s: &str) -> (r: Option<MacAddress>)
    ensures
        r == mac_parse(s@),
{
    match s.parse::<macaddr::MacAddr>() {
        Ok(macaddr::MacAddr::V6(a)) => Some(MacAddress::V6(a.into_array())),
        Ok(macaddr::MacAddr::V8(a)) => Some(MacAddress::V8(a.into_array())),
        Err(_) => None,
    }
}

fn hex_upper_exec(d: u8) -> (c: char)
    requires
        d < 16,
    ensures
        c == hex_upper(d as nat),
{
    if d == 0 { '0' } else if d == 1 { '1' } else if d == 2 { '2' } else if d == 3 { '3' }
    else if d == 4 { '4' } else if d == 5 { '5' } else if d == 6 { '6' } else if d == 7 { '7' }
    else if d == 8 { '8' } else if d == 9 { '9' } else if d == 10 { 'A' } else if d == 11 { 'B' }
    else if d == 12 { 'C' } else if d == 13 { 'D' } else if d == 14 { 'E' } else { 'F' }
}

fn colon_hex_exec(bytes: &[u8]) -> (r: String)
    ensures
        r@ == colon_hex(bytes@),
{
    let mut out = String::new();
    let mut i: usize = 0;
    while i < bytes.len()
        invariant
            i <= bytes.len(),
            out@ == colon_hex(bytes@.subrange(0, i as int)),
        decreases bytes.len() - i,
    {
        let b = bytes[i];
        proof {
            let pre = bytes@.subrange(0, i as int);
            let next = bytes@.subrange(0, i + 1);
            assert(next.drop_last() =~= pre);
            assert(next.last() == b);
        }
        if i > 0 {
            push_char(&mut out, ':');
        }
        push_char(&mut out, hex_upper_exec(b / 16));
        push_char(&mut out, hex_upper_exec(b % 16));
        proof {
            let next = bytes@.subrange(0, i + 1);
            if i == 0 {
                assert(out@ =~= byte_hex(b));
            } else {
                assert(out@ =~= colon_hex(next.drop_last()) + seq![':'] + byte_hex(b));
            }
        }
        i = i + 1;
    }
    assert(bytes@.subrange(0, bytes.len() as int) =~= bytes@);
    out
}

impl MacAddress {
    /// The text of this address: upper-case hexadecimal byte pairs separated by `:`.
    pub fn to_text(&self) -> (r: String)
        ensures
            r@ == mac_text(*self),
    {
        match self {
            MacAddress::V6(b) => colon_hex_exec(b.as_slice()),
            MacAddress::V8(b) => colon_hex_exec(b.as_slice()),
        }
    }
}

} // verus!
