//! Account addresses: parsing from text and derivation from a public key.

use vstd::prelude::*;
use crate::errors::{Error, ErrorView};
use crate::primitives::{prefixed_hex, prefixed_hex_text, Address};

verus! {

/// Characters that the address parser skips wherever they stand.
pub open spec fn is_blank(c: char) -> bool {
    c == ' ' || c == '\t' || c == '\n' || c == '\r'
}

/// The value of a hexadecimal digit of either case.
pub open spec fn hex_digit_value(c: char) -> Option<int> {
    let n = c as int;
    if 0x30 <= n <= 0x39 {
        Some(n - 0x30)
    } else if 0x61 <= n <= 0x66 {
        Some(n - 0x61 + 10)
    } else if 0x41 <= n <= 0x46 {
        Some(n - 0x41 + 10)
    } else {
        None
    }
}

/// The text without one leading `0x`, if it has one.
pub open spec fn without_prefix(s: Seq<char>) -> Seq<char> {
    if s.len() >= 2 && s[0] == '0' && s[1] == 'x' {
        s.skip(2)
    } else {
        s
    }
}

/// The characters that count as digits: everything after the prefix that is not blank.
pub open spec fn address_digits(s: Seq<char>) -> Seq<char> {
    without_prefix(s).filter(|c: char| !is_blank(c))
}

/// The 20 bytes that an address text denotes: after an optional `0x` and
/// with blanks ignored, exactly 40 hexadecimal digits, two per byte, high
/// nibble first. Any other text denotes nothing.
pub open spec fn address_text_bytes(s: Seq<char>) -> Option<Seq<u8>> {
    let d = address_digits(s);
    if d.len() == 40 && (forall|i: int| 0 <= i < 40 ==> hex_digit_value(#[trigger] d[i]) is Some) {
        Some(
            Seq::new(
                20,
                |i: int|
                    (hex_digit_value(d[2 * i]).unwrap() * 16 + hex_digit_value(
                        d[2 * i + 1],
                    ).unwrap()) as u8,
            ),
        )
    } else {
        None
    }
}

/// A text that is, after an optional `0x`, exactly 40 hexadecimal digits
/// denotes an address: byte `i` is made of digits `2i` and `2i + 1`.
pub proof fn lemma_forty_digits_denote_an_address(s: Seq<char>)
    requires
        without_prefix(s).len() == 40,
        forall|i: int| 0 <= i < 40 ==> hex_digit_value(#[trigger] without_prefix(s)[i]) is Some,
    ensures
        address_digits(s) == without_prefix(s),
        address_text_bytes(s) matches Some(bytes) && bytes.len() == 20 && (forall|i: int|
            0 <= i < 20 ==> #[trigger] bytes[i] as int == hex_digit_value(without_prefix(s)[2 * i]).unwrap() * 16
                + hex_digit_value(without_prefix(s)[2 * i + 1]).unwrap()),
{
    let w = without_prefix(s);
    assert forall|i: int| 0 <= i < w.len() implies !is_blank(#[trigger] w[i]) by {
        assert(hex_digit_value(w[i]) is Some);
    }
    lemma_filter_keeps_all(w);
}

/// Filtering out blanks keeps a text that has none.
proof fn lemma_filter_keeps_all(w: Seq<char>)
    requires
        forall|i: int| 0 <= i < w.len() ==> !is_blank(#[trigger] w[i]),
    ensures
        w.filter(|c: char| !is_blank(c)) == w,
    decreases w.len(),
{
    reveal(Seq::filter);
    if w.len() > 0 {
        lemma_filter_keeps_all(w.drop_last());
        assert(w.drop_last().push(w.last()) =~= w);
    }
}

/// The bytes of an optional address.
pub open spec fn optional_bytes(a: Option<Address>) -> Option<Seq<u8>> {
    match a {
        Some(a) => Some(a@),
        None => None,
    }
}

/// `FromStr` of `ic_web3::types::Address` (the `fixed-hash` crate's `H160`):
/// it strips one leading `0x`, then reads hexadecimal digits of either case
/// two per byte while skipping spaces, tabs and line breaks, and accepts the
/// text only if that gives exactly 20 bytes with nothing but blanks left over.
#[verifier::external_body]
fn address_from_text(text: &str) -> (r: Option<Address>)
    ensures
        optional_bytes(r) == address_text_bytes(text@),
{
    <ic_web3::types::Address as std::str::FromStr>::from_str(text).ok().map(|a| Address { bytes: a.0 })
}

/// Parses an address text. It succeeds exactly on the texts that denote 20 bytes.
pub fn parse_address(text: &str) -> (r: Result<Address, Error>)
    ensures
        match r {
            Ok(a) => address_text_bytes(text@) == Some(a@),
            Err(e) => e@ == ErrorView::InvalidAddress && address_text_bytes(text@) is None,
        },
{
    match address_from_text(text) {
        Some(a) => Ok(a),
        None => Err(Error::InvalidAddress),
    }
}

/// The address that a compressed secp256k1 public key controls, if the bytes
/// encode a point: the last 20 bytes of the Keccak-256 hash of the point's
/// uncompressed coordinates.
pub uninterp spec fn compressed_key_address(pubkey: Seq<u8>) -> Option<Seq<u8>>;

/// `ic_web3::ic::pubkey_to_address`: it parses the key with
/// `libsecp256k1::PublicKey::parse_slice` in compressed format, which
/// refuses any length but 33 and any first byte but 2 or 3, and hashes the
/// decompressed coordinates. The result depends on the key bytes alone.
#[verifier::external_body]
fn address_of_key(pubkey: &[u8]) -> (r: Option<Address>)
    ensures
        optional_bytes(r) == compressed_key_address(pubkey@),
        pubkey@.len() != 33 ==> r is None,
        pubkey@.len() == 33 && pubkey@[0] != 2 && pubkey@[0] != 3 ==> r is None,
{
    ic_web3::ic::pubkey_to_address(pubkey).ok().map(|a| Address { bytes: a.0 })
}

/// Classifies the outcome of a derivation: a missing address means the key
/// was not a valid point encoding.
pub fn checked_key_address(derived: Option<Address>) -> (r: Result<Address, Error>)
    ensures
        match r {
            Ok(a) => derived == Some(a),
            Err(e) => e@ == ErrorView::InvalidKeyFormat && derived is None,
        },
{
    match derived {
        Some(a) => Ok(a),
        None => Err(Error::InvalidKeyFormat),
    }
}

/// The bytes or the failure of a derivation or a parse.
pub open spec fn address_result(r: Result<Address, Error>) -> Result<Seq<u8>, ErrorView> {
    match r {
        Ok(a) => Ok(a@),
        Err(e) => Err(e@),
    }
}

/// What deriving the address of `pubkey` gives.
pub open spec fn derived_address(pubkey: Seq<u8>) -> Result<Seq<u8>, ErrorView> {
    match compressed_key_address(pubkey) {
        Some(a) => Ok(a),
        None => Err(ErrorView::InvalidKeyFormat),
    }
}

/// Derives the account address of a compressed public key. The address is a
/// function of the key bytes alone; keys of any length but 33, or whose
/// first byte is neither 2 nor 3, are refused.
pub fn pubkey_to_address(pubkey: &[u8]) -> (r: Result<Address, Error>)
    ensures
        address_result(r) == derived_address(pubkey@),
        pubkey@.len() != 33 ==> r is Err,
        pubkey@.len() == 33 && pubkey@[0] != 2 && pubkey@[0] != 3 ==> r is Err,
{
    checked_key_address(address_of_key(pubkey))
}

/// Derivation is deterministic: whatever two derivations of one key
/// return, they return the same, byte for byte.
pub proof fn lemma_derivation_is_deterministic(pubkey: Seq<u8>, first: Result<Address, Error>, second: Result<Address, Error>)
    requires
        address_result(first) == derived_address(pubkey),
        address_result(second) == derived_address(pubkey),
    ensures
        address_result(first) == address_result(second),
        first matches Ok(a) ==> second matches Ok(b) && a@ == b@,
{
}

/// An account as shown to callers.
#[derive(Debug)]
pub struct AccountInfo {
    /// `0x` and the 40 lower-case hexadecimal digits of the address.
    pub address: String,
}

impl View for AccountInfo {
    type V = Seq<char>;

    open spec fn view(&self) -> Seq<char> {
        self.address@
    }
}

/// The account record of an address.
pub fn account_info(address: &Address) -> (r: AccountInfo)
    ensures
        r@ == prefixed_hex_text(address@),
{
    AccountInfo { address: prefixed_hex(address.bytes.as_slice()) }
}

} // verus!
