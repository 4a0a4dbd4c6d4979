//! Stable device identifiers: a device id is the lowercase-hex SHA-1 digest of
//! the device's display name, so the same name always yields the same id.

use vstd::prelude::*;

verus! {

/// The SHA-1 digest of the UTF-8 bytes of a string, as the `sha1` crate
/// computes it. The digest is a function of the input alone; its value is
/// not stated here, only its length.
pub uninterp spec fn sha1_of(name: Seq<char>) -> Seq<u8>;

/// Relies on `sha1::Sha1::digest` (through the `digest` crate's `Digest`
/// trait): a one-shot SHA-1 over the input bytes, always 20 bytes long and
/// depending on the input alone.
#[verifier::external_body]
fn sha1_digest_str(name: &str) -> (r: Vec<u8>)
    ensures
        r@ == sha1_of(name@),
        r@.len() == 20,
{
    <sha1::Sha1 as sha1::Digest>::digest(name.as_bytes()).to_vec()
}

/// The lowercase hex character for one nibble.
pub open spec fn hex_digit(d: u8) -> char
    recommends
        d < 16,
{
    if d < 10 {
        (48 + d) as char
    } else {
        (87 + d) as char
    }
}

/// Lowercase hex encoding: two digits per byte, high nibble first.
pub open spec fn hex_lower_of(bytes: Seq<u8>) -> Seq<char>
    decreases bytes.len(),
{
    if bytes.len() == 0 {
        Seq::empty()
    } else {
        seq![hex_digit(bytes[0] / 16), hex_digit(bytes[0] % 16)] + hex_lower_of(bytes.drop_first())
    }
}

pub proof fn lemma_hex_lower_len(bytes: Seq<u8>)
    ensures
        hex_lower_of(bytes).len() == 2 * bytes.len(),
    decreases bytes.len(),
{
    if bytes.len() > 0 {
        lemma_hex_lower_len(bytes.drop_first());
    }
}

/// Relies on `data_encoding::HEXLOWER.encode`: encodes with the symbols
/// `0123456789abcdef`, most significant nibble of each byte first.
#[verifier::external_body]
fn hex_lower_encode(bytes: &Vec<u8>) -> (r: String)
    ensures
        r@ == hex_lower_of(bytes@),
{
    data_encoding::HEXLOWER.encode(bytes.as_slice())
}

/// Derives the stable device identifier from a display name: the lowercase-hex
/// SHA-1 digest of the name.
pub fn device_id(name: &str) -> (r: String)
    ensures
        r@ == hex_lower_of(sha1_of(name@)),
        r@.len() == 40,
{
    let digest = sha1_digest_str(name);
    let r = hex_lower_encode(&digest);
    proof {
        lemma_hex_lower_len(digest@);
    }
    r
}

} // verus!
