//! Streaming SHA-512 content checksum, computed over every payload byte as
//! it is written to storage and reported in hexadecimal on a successful
//! transfer.
//!
//! The digest itself comes from an outside crate; the engine reasons about
//! it through two names: `sha512_fed`, the bytes fed to an accumulator so
//! far, and `sha512_hex_of`, the hex digest of a byte sequence. Both depend
//! on nothing but the bytes.

use vstd::prelude::*;

use crypto::digest::Digest;
use crypto::sha2::Sha512;

verus! {

#[verifier::external_type_specification]
#[verifier::external_body]
pub struct ExSha512(Sha512);

/// The bytes fed so far to a streaming SHA-512 accumulator.
pub uninterp spec fn sha512_fed(d: Sha512) -> Seq<u8>;

/// The lowercase hexadecimal SHA-512 digest of `data`: a function of the
/// bytes alone.
pub uninterp spec fn sha512_hex_of(data: Seq<u8>) -> Seq<char>;

/// Relies on crypto::sha2::Sha512::new: a fresh accumulator with no data
/// fed yet.
#[verifier::external_body]
pub fn sha512_new() -> (d: Sha512)
    ensures
        sha512_fed(d) == Seq::<u8>::empty(),
{
    Sha512::new()
}

/// Relies on crypto::digest::Digest::input for Sha512: provides further
/// message data, appending `data` to what the accumulator has digested.
#[verifier::external_body]
pub fn sha512_input(d: &mut Sha512, data: &Vec<u8>)
    ensures
        sha512_fed(*final(d)) == sha512_fed(*old(d)) + data@,
{
    d.input(data.as_slice())
}

/// Relies on crypto::digest::Digest::result_str for Sha512: the digest of
/// all data fed, as a lowercase hexadecimal string. Consumes the
/// accumulator, which must not be fed again after its result is taken.
#[verifier::external_body]
pub fn sha512_result_str(d: Sha512) -> (r: String)
    ensures
        r@ == sha512_hex_of(sha512_fed(d)),
{
    let mut d = d;
    d.result_str()
}

} // verus!
