//! Fixed-width account/contract identifiers and the parsing of their
//! textual (hexadecimal) form, as stored in the consensus engine's
//! configuration.

use vstd::prelude::*;
use vstd::string::StrSliceExecFns;
use vstd::string::StringExecFns;

verus! {

/// Number of bytes in an account or contract identifier.
pub const ADDRESS_BYTES: usize = 20;

/// Number of hexadecimal digits in the textual form of an address.
pub const ADDRESS_HEX_DIGITS: usize = 40;

/// A fixed-width account or contract identifier.
#[derive(Debug, PartialEq, Eq)]
pub struct Address {
    /// The raw bytes; a well-formed address holds exactly [`ADDRESS_BYTES`] of them.
    pub bytes: Vec<u8>,
}

impl View for Address {
    type V = Seq<u8>;

    open spec fn view(&self) -> Seq<u8> {
        self.bytes@
    }
}

/// The byte sequence of the all-zero address, used as the placeholder
/// sender of synthetic transactions.
pub open spec fn zero_address_bytes() -> Seq<u8> {
    Seq::new(ADDRESS_BYTES as nat, |i: int| 0u8)
}

impl Address {
    /// A well-formed address holds exactly [`ADDRESS_BYTES`] bytes.
    pub open spec fn wf(&self) -> bool {
        self@.len() == ADDRESS_BYTES
    }

    /// The all-zero address.
    pub fn zero() -> (r: Address)
        ensures
            r.wf(),
            r@ == zero_address_bytes(),
    {
        let mut bytes: Vec<u8> = Vec::new();
        let mut i: usize = 0;
        while i < ADDRESS_BYTES
            invariant
                i <= ADDRESS_BYTES,
                bytes@.len() == i,
                forall|j: int| 0 <= j < i ==> bytes@[j] == 0u8,
            decreases ADDRESS_BYTES - i,
        {
            bytes.push(0u8);
            i = i + 1;
        }
        proof {
            assert(bytes@ =~= zero_address_bytes());
        }
        Address { bytes }
    }
}

impl Clone for Address {
    fn clone(&self) -> (r: Self)
        ensures
            r@ == self@,
    {
        let mut bytes: Vec<u8> = Vec::new();
        let mut i: usize = 0;
        while i < self.bytes.len()
            invariant
                i <= self.bytes@.len(),
                bytes@ =~= self.bytes@.take(i as int),
            decreases self.bytes@.len() - i,
        {
            let b = self.bytes[i];
            bytes.push(b);
            i = i + 1;
        }
        proof {
            assert(bytes@ =~= self.bytes@);
        }
        Address { bytes }
    }
}

/// The numeric value of a hexadecimal digit, or `-1` for any other character.
pub open spec fn hex_digit_value(c: char) -> int {
    let x = c as int;
    if 48 <= x && x <= 57 {
        x - 48
    } else if 97 <= x && x <= 102 {
        x - 87
    } else if 65 <= x && x <= 70 {
        x - 55
    } else {
        -1
    }
}

/// Whether `c` is a hexadecimal digit (either case).
pub open spec fn is_hex_digit(c: char) -> bool {
    hex_digit_value(c) >= 0
}

/// Whether `s` is the well-formed textual form of an address:
/// exactly [`ADDRESS_HEX_DIGITS`] hexadecimal digits.
pub open spec fn address_parses(s: Seq<char>) -> bool {
    &&& s.len() == ADDRESS_HEX_DIGITS
    &&& forall|i: int| 0 <= i < s.len() ==> is_hex_digit(#[trigger] s[i])
}

/// The bytes denoted by a well-formed textual address: each byte is a
/// pair of digits, most significant first.
pub open spec fn parsed_address_bytes(s: Seq<char>) -> Seq<u8> {
    Seq::new(
        ADDRESS_BYTES as nat,
        |i: int| (hex_digit_value(s[2 * i]) * 16 + hex_digit_value(s[2 * i + 1])) as u8,
    )
}

/// The numeric value of one hexadecimal digit, if it is one.
fn hex_digit(c: char) -> (r: Option<u8>)
    ensures
        is_hex_digit(c) ==> r == Some(hex_digit_value(c) as u8),
        !is_hex_digit(c) ==> r is None,
{
    let x = c as u32;
    if 48 <= x && x <= 57 {
        Some((x - 48) as u8)
    } else if 97 <= x && x <= 102 {
        Some((x - 87) as u8)
    } else if 65 <= x && x <= 70 {
        Some((x - 55) as u8)
    } else {
        None
    }
}

/// Parses the textual form of an address. Exactly the strings accepted by
/// [`address_parses`] yield an address; any other input is rejected with a
/// non-empty diagnostic, as the stored registrar value may be arbitrary text.
pub fn parse_address(s: &str) -> (r: Result<Address, String>)
    ensures
        address_parses(s@) ==> (r matches Ok(a) && a.wf() && a@ == parsed_address_bytes(s@)),
        !address_parses(s@) ==> (r matches Err(d) && d@.len() > 0),
{
    let n = s.unicode_len();
    if n != ADDRESS_HEX_DIGITS {
        let d = String::from_str("expected 40 hexadecimal digits");
        proof {
            reveal_strlit("expected 40 hexadecimal digits");
        }
        return Err(d);
    }
    let mut bytes: Vec<u8> = Vec::new();
    let mut i: usize = 0;
    while i < ADDRESS_BYTES
        invariant
            i <= ADDRESS_BYTES,
            s@.len() == ADDRESS_HEX_DIGITS,
            bytes@.len() == i,
            forall|j: int| 0 <= j < 2 * i ==> is_hex_digit(#[trigger] s@[j]),
            forall|j: int| 0 <= j < i ==>
                bytes@[j] == (hex_digit_value(s@[2 * j]) * 16 + hex_digit_value(s@[2 * j + 1])) as u8,
        decreases ADDRESS_BYTES - i,
    {
        let hi = hex_digit(s.get_char(2 * i));
        let lo = hex_digit(s.get_char(2 * i + 1));
        match (hi, lo) {
            (Some(h), Some(l)) => {
                bytes.push(h * 16 + l);
            },
            _ => {
                let d = String::from_str("not a hexadecimal digit");
                proof {
                    reveal_strlit("not a hexadecimal digit");
                }
                return Err(d);
            },
        }
        i = i + 1;
    }
    proof {
        assert(bytes@ =~= parsed_address_bytes(s@));
    }
    Ok(Address { bytes })
}

} // verus!
