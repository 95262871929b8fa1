//! Acquisition of operating-system entropy for random seeding. The one call
//! into the operating system sits behind a trusted wrapper; everything around
//! it — packing bytes into words and retrying while a word comes out zero —
//! is verified.

use vstd::prelude::*;

verus! {

/// The entropy source was unavailable, or kept returning all-zero bytes for
/// longer than the retry budget allows. The one recoverable failure of this
/// library: it reflects a transient condition of the host, not caller error.
#[derive(Clone, Copy, PartialEq, Eq, Structural, Debug)]
pub struct EntropyError;

#[verifier::external_type_specification]
#[verifier::external_body]
pub struct ExRandError(rand::Error);

/// How often a zero word may be redrawn before the source is declared
/// degenerate. Eight honest random bytes are zero with probability 2^-64;
/// this many zero draws in a row cannot be chance.
const ZERO_RETRIES: usize = 64;

/// Relies on rand::rngs::OsRng through rand::RngCore::try_fill_bytes: on
/// success the whole buffer of `n` bytes has been filled with
/// operating-system entropy; on failure the error is returned.
#[verifier::external_body]
fn os_bytes(n: usize) -> (r: Result<Vec<u8>, rand::Error>)
    ensures
        r matches Ok(v) ==> v@.len() == n,
{
    let mut buf = vec![0u8; n];
    match rand::RngCore::try_fill_bytes(&mut rand::rngs::OsRng, &mut buf) {
        Ok(()) => Ok(buf),
        Err(e) => Err(e),
    }
}

/// Packs the first eight bytes of a buffer into one little-endian word.
fn word_from_le(bytes: &Vec<u8>) -> (r: u64)
    requires
        bytes@.len() >= 8,
    ensures
        r == (bytes@[0] as u64) | ((bytes@[1] as u64) << 8u32) | ((bytes@[2] as u64) << 16u32) | ((
        bytes@[3] as u64) << 24u32) | ((bytes@[4] as u64) << 32u32) | ((bytes@[5] as u64) << 40u32)
            | ((bytes@[6] as u64) << 48u32) | ((bytes@[7] as u64) << 56u32),
{
    (bytes[0] as u64) | ((bytes[1] as u64) << 8u32) | ((bytes[2] as u64) << 16u32) | ((bytes[3]
        as u64) << 24u32) | ((bytes[4] as u64) << 32u32) | ((bytes[5] as u64) << 40u32) | ((
    bytes[6] as u64) << 48u32) | ((bytes[7] as u64) << 56u32)
}

/// Draws one nonzero word from the operating system, redrawing a zero word
/// up to the retry budget.
fn os_nonzero_word() -> (r: Result<u64, EntropyError>)
    ensures
        r matches Ok(w) ==> w != 0,
{
    let mut tries: usize = 0;
    while tries < ZERO_RETRIES
        invariant
            tries <= ZERO_RETRIES,
        decreases ZERO_RETRIES - tries,
    {
        let bytes = match os_bytes(8) {
            Ok(v) => v,
            Err(_) => {
                return Err(EntropyError);
            },
        };
        let w = word_from_le(&bytes);
        if w != 0 {
            return Ok(w);
        }
        tries = tries + 1;
    }
    Err(EntropyError)
}

/// Draws `count` nonzero words from the operating system: on success the
/// returned vector has exactly `count` words and none of them is zero, so a
/// state seeded from it can never be all zero.
pub fn os_nonzero_words(count: usize) -> (r: Result<Vec<u64>, EntropyError>)
    ensures
        r matches Ok(v) ==> v@.len() == count && forall|i: int|
            0 <= i < count ==> v@[i] != 0,
{
    let mut words: Vec<u64> = Vec::new();
    while words.len() < count
        invariant
            words@.len() <= count,
            forall|i: int| 0 <= i < words@.len() ==> words@[i] != 0,
        decreases count - words.len(),
    {
        let w = os_nonzero_word()?;
        words.push(w);
    }
    Ok(words)
}

} // verus!
