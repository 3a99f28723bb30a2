//! Identifier parsing and storage-key derivation.
//!
//! Chain identifiers travel through configuration as hex strings and are
//! derived from chain names by hashing; storage keys are derived from
//! pallet and item names.  The hashing itself is done by outside crates
//! behind trusted wrappers; everything around them is verified.

use vstd::prelude::*;

use crate::errors::Error;

verus! {

/// Whether a byte spells a hex digit (`0-9`, `a-f`, `A-F`).
pub open spec fn is_hex_digit(b: u8) -> bool {
    (48 <= b && b <= 57) || (97 <= b && b <= 102) || (65 <= b && b <= 70)
}

/// The value of a hex digit; meaningless for other bytes.
pub open spec fn hex_digit_value(b: u8) -> u8 {
    if 48 <= b && b <= 57 {
        (b - 48) as u8
    } else if 97 <= b && b <= 102 {
        (b - 97 + 10) as u8
    } else {
        (b - 65 + 10) as u8
    }
}

/// Whether a byte string is well-formed hex: an even number of hex digits.
pub open spec fn is_hex_string(s: Seq<u8>) -> bool {
    s.len() % 2 == 0 && forall|i: int| 0 <= i < s.len() ==> is_hex_digit(#[trigger] s[i])
}

/// The bytes a well-formed hex string spells, two digits per byte, high
/// digit first.
pub open spec fn spec_hex_decode(s: Seq<u8>) -> Seq<u8> {
    Seq::new(
        s.len() / 2,
        |i: int| (hex_digit_value(s[2 * i]) * 16 + hex_digit_value(s[2 * i + 1])) as u8,
    )
}

/// Relies on `hex::decode`: an even-length string of hex digits decodes to
/// the bytes it spells; an odd length or a non-digit byte is rejected.
#[verifier::external_body]
fn hex_decode(s: &Vec<u8>) -> (r: Result<Vec<u8>, Error>)
    ensures
        r is Ok <==> is_hex_string(s@),
        r matches Ok(v) ==> v@ == spec_hex_decode(s@),
        r matches Err(e) ==> e == Error::Decode,
{
    match hex::decode(s) {
        Ok(v) => Ok(v),
        Err(_) => Err(Error::Decode),
    }
}

/// The 32-byte Blake2b digest of a byte string; it depends on the input
/// alone.
pub uninterp spec fn blake2_256_of(data: Seq<u8>) -> Seq<u8>;

/// Relies on `sp_crypto_hashing::blake2_256`: a 256-bit Blake2b digest,
/// a function of the input bytes alone.
#[verifier::external_body]
fn blake2_256(data: &Vec<u8>) -> (r: Vec<u8>)
    ensures
        r@ == blake2_256_of(data@),
        r@.len() == 32,
{
    sp_crypto_hashing::blake2_256(data).to_vec()
}

/// The 16-byte twox digest of a byte string; it depends on the input
/// alone.
pub uninterp spec fn twox_128_of(data: Seq<u8>) -> Seq<u8>;

/// Relies on `sp_crypto_hashing::twox_128`: two seeded 64-bit XXHash runs
/// over the input, little-endian concatenated, a function of the input
/// bytes alone.
#[verifier::external_body]
fn twox_128(data: &Vec<u8>) -> (r: Vec<u8>)
    ensures
        r@ == twox_128_of(data@),
        r@.len() == 16,
{
    sp_crypto_hashing::twox_128(data).to_vec()
}

/// Parses a hex-spelled 32-byte identifier, the form chain and client
/// identifiers take in configuration: accepted exactly when the input is
/// well-formed hex that decodes to 32 bytes.
pub fn parse_hash32(s: &Vec<u8>) -> (r: Result<Vec<u8>, Error>)
    ensures
        r is Ok <==> is_hex_string(s@) && s@.len() == 64,
        r matches Ok(v) ==> v@ == spec_hex_decode(s@) && v@.len() == 32,
        r matches Err(e) ==> e == Error::Decode,
{
    match hex_decode(s) {
        Ok(v) => {
            if v.len() == 32 {
                Ok(v)
            } else {
                Err(Error::Decode)
            }
        },
        Err(e) => Err(e),
    }
}

/// Derives the client identifier a chain uses for a counterparty: the
/// 32-byte Blake2b digest of the counterparty's chain name.
pub fn client_identifier_for(chain_name: &Vec<u8>) -> (r: Vec<u8>)
    ensures
        r@ == blake2_256_of(chain_name@),
        r@.len() == 32,
{
    blake2_256(chain_name)
}

/// Derives the storage key of a named storage item: the 128-bit twox
/// digest of the pallet name followed by the 128-bit twox digest of the
/// item name.  The event records of a block live under the `System`
/// pallet's `Events` item.
pub fn storage_value_key(pallet: &Vec<u8>, item: &Vec<u8>) -> (r: Vec<u8>)
    ensures
        r@ == twox_128_of(pallet@) + twox_128_of(item@),
        r@.len() == 32,
{
    let mut r = twox_128(pallet);
    let mut second = twox_128(item);
    r.append(&mut second);
    r
}

} // verus!
