//! Fixed-width values shared by every component: account addresses and
//! unsigned 256-bit integers, with their textual forms.

use vstd::prelude::*;
use vstd::string::*;

verus! {

/// A 20-byte account address.
#[derive(Clone, Copy, Debug)]
pub struct Address {
    pub bytes: [u8; 20],
}

impl View for Address {
    type V = Seq<u8>;

    open spec fn view(&self) -> Seq<u8> {
        self.bytes@
    }
}

/// An unsigned 256-bit integer held as four 64-bit limbs, least significant first.
#[derive(Clone, Copy, Debug)]
pub struct U256 {
    pub limbs: [u64; 4],
}

/// The value of four 64-bit limbs, least significant first.
pub open spec fn limbs_value(l0: u64, l1: u64, l2: u64, l3: u64) -> nat {
    (l0 as nat) + (l1 as nat) * 0x1_0000_0000_0000_0000nat
        + (l2 as nat) * 0x1_0000_0000_0000_0000_0000_0000_0000_0000nat
        + (l3 as nat) * 0x1_0000_0000_0000_0000_0000_0000_0000_0000_0000_0000_0000_0000nat
}

impl View for U256 {
    type V = nat;

    open spec fn view(&self) -> nat {
        limbs_value(self.limbs[0], self.limbs[1], self.limbs[2], self.limbs[3])
    }
}

impl U256 {
    /// The 256-bit integer with the value of `v`.
    pub fn from_u64(v: u64) -> (r: U256)
        ensures
            r@ == v as nat,
    {
        U256 { limbs: [v, 0, 0, 0] }
    }

    /// The 256-bit integer with the value of `v`.
    pub fn from_u128(v: u128) -> (r: U256)
        ensures
            r@ == v as nat,
    {
        let low: u128 = v & 0xffff_ffff_ffff_ffffu128;
        let high: u128 = v >> 64u128;
        assert(low <= 0xffff_ffff_ffff_ffffu128 && high <= 0xffff_ffff_ffff_ffffu128
            && v == low + high * 0x1_0000_0000_0000_0000u128) by (bit_vector)
            requires
                low == v & 0xffff_ffff_ffff_ffffu128,
                high == v >> 64u128,
        ;
        U256 { limbs: [low as u64, high as u64, 0, 0] }
    }

    /// The decimal text of the value: no sign, no leading zeros, `"0"` for zero.
    pub fn to_decimal(&self) -> (r: String)
        ensures
            r@ == decimal_digits(self@),
    {
        decimal_text(self.limbs)
    }
}

/// The character of a decimal digit.
pub open spec fn decimal_char(d: nat) -> char {
    seq!['0', '1', '2', '3', '4', '5', '6', '7', '8', '9'][d as int]
}

/// The decimal digits of `n`, most significant first, without leading zeros.
pub open spec fn decimal_digits(n: nat) -> Seq<char>
    decreases n,
{
    if n < 10 {
        seq![decimal_char(n)]
    } else {
        decimal_digits(n / 10).push(decimal_char(n % 10))
    }
}

/// `Display` of `ic_web3::types::U256` (the `uint` crate's 256-bit integer),
/// built from its four public limbs. The implementation writes `"0"` for
/// zero and otherwise divides by ten until nothing is left, emitting the
/// remainders most significant first, with no padding.
#[verifier::external_body]
fn decimal_text(limbs: [u64; 4]) -> (r: String)
    ensures
        r@ == decimal_digits(limbs_value(limbs[0], limbs[1], limbs[2], limbs[3])),
{
    ic_web3::types::U256(limbs).to_string()
}

/// The character of a hexadecimal digit, lower case.
pub open spec fn hex_char(d: int) -> char {
    seq!['0', '1', '2', '3', '4', '5', '6', '7', '8', '9', 'a', 'b', 'c', 'd', 'e', 'f'][d]
}

/// Two lower-case hexadecimal digits per byte, high nibble first.
pub open spec fn hex_encoding(bytes: Seq<u8>) -> Seq<char> {
    Seq::new(
        2 * bytes.len(),
        |i: int| hex_char(if i % 2 == 0 { bytes[i / 2] as int / 16 } else { bytes[i / 2] as int % 16 }),
    )
}

/// `hex::encode`: every byte becomes two characters of `0123456789abcdef`,
/// the high nibble first, in input order.
#[verifier::external_body]
pub(crate) fn hex_encode(data: &[u8]) -> (r: String)
    ensures
        r@ == hex_encoding(data@),
{
    hex::encode(data)
}

/// The text `0x` followed by the lower-case hexadecimal form of `data`.
pub open spec fn prefixed_hex_text(data: Seq<u8>) -> Seq<char> {
    "0x"@ + hex_encoding(data)
}

/// Formats bytes as `0x` followed by two lower-case hexadecimal digits per byte.
pub fn prefixed_hex(data: &[u8]) -> (r: String)
    ensures
        r@ == prefixed_hex_text(data@),
{
    let digits = hex_encode(data);
    String::from_str("0x").concat(digits.as_str())
}

} // verus!
