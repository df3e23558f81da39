//! The cryptographic building blocks of the format.
//!
//! Nothing in this module is proved: each function hands its arguments to a
//! cryptographic crate, and its contract records what that crate computes.
//! The results of the hash, the MAC, the key derivation and the keystream
//! are too long to write out, so each one is given a name here, and the rest
//! of the library is verified against those names.

use aes::cipher::{KeyIvInit, StreamCipher};
use hmac::Mac;
use rand::{Rng, SeedableRng};
use sha2::Digest;
use vstd::arithmetic::power2::pow2;
use vstd::prelude::*;

verus! {

/// `hmac::digest::MacError`, the mismatch that `Mac::verify` reports.
#[verifier::external_type_specification]
#[verifier::external_body]
pub struct ExMacError(hmac::digest::MacError);

/// `scrypt::errors::InvalidParams`, the refusal of `scrypt::Params::new`.
#[verifier::external_type_specification]
#[verifier::external_body]
pub struct ExInvalidParams(scrypt::errors::InvalidParams);

/// The SHA-256 digest of `data`.
pub uninterp spec fn sha256_digest(data: Seq<u8>) -> [u8; 32];

/// The HMAC-SHA-256 tag of `data` under `key`.
pub uninterp spec fn hmac_sha256_tag(key: Seq<u8>, data: Seq<u8>) -> [u8; 32];

/// The 64 bytes that scrypt derives from `passphrase` and `salt` at the cost
/// `(log_n, r, p)`.
pub uninterp spec fn scrypt_output(
    passphrase: Seq<u8>,
    salt: Seq<u8>,
    log_n: u8,
    r: u32,
    p: u32,
) -> [u8; 64];

/// The byte at position `index` of the AES-256-CTR keystream for `key`, with
/// an all-zero nonce and a 128-bit big-endian counter that starts at zero.
pub uninterp spec fn aes256_ctr_keystream(key: Seq<u8>, index: int) -> u8;

/// Whether scrypt accepts the cost `(log_n, r, p)` on this machine.
///
/// `N = 2^log_n` must be representable, the buffers of `128 * r * N` and
/// `128 * r * p` bytes must be addressable, and the two bounds of the scrypt
/// paper must hold: `N < 2^(128 * r / 8)` and `r * p < 2^30`.
pub open spec fn valid_cost(log_n: u8, r: u32, p: u32) -> bool {
    &&& r > 0
    &&& p > 0
    &&& log_n < usize::BITS
    &&& 128 * r * pow2(log_n as nat) <= usize::MAX
    &&& 128 * r * p <= usize::MAX
    &&& log_n < 16 * r
    &&& r * p < 0x4000_0000
}

/// Calls `sha2::Sha256::digest`: the result is the SHA-256 digest of `data`.
#[verifier::external_body]
pub(crate) fn sha256(data: &[u8]) -> (digest: [u8; 32])
    ensures
        digest == sha256_digest(data@),
{
    sha2::Sha256::digest(data).into()
}

/// Feeds `data` to `hmac::Hmac<sha2::Sha256>` keyed with `key` and calls
/// `Mac::finalize`: the result is the HMAC-SHA-256 tag of `data`.
#[verifier::external_body]
pub(crate) fn hmac_sha256(key: &[u8; 32], data: &[u8]) -> (tag: [u8; 32])
    ensures
        tag == hmac_sha256_tag(key@, data@),
{
    let mut mac = hmac::Hmac::<sha2::Sha256>::new_from_slice(key)
        .expect("HMAC-SHA-256 accepts a key of any length");
    mac.update(data);
    mac.finalize().into_bytes().into()
}

/// Feeds `data` to `hmac::Hmac<sha2::Sha256>` keyed with `key` and calls
/// `Mac::verify`, which compares the tag it computes with `tag` in constant
/// time: the result is `Ok` exactly when the two are equal.
#[verifier::external_body]
pub(crate) fn hmac_sha256_verify(key: &[u8; 32], data: &[u8], tag: &[u8; 32]) -> (res: Result<
    (),
    hmac::digest::MacError,
>)
    ensures
        res is Ok <==> hmac_sha256_tag(key@, data@) == *tag,
{
    let mut mac = hmac::Hmac::<sha2::Sha256>::new_from_slice(key)
        .expect("HMAC-SHA-256 accepts a key of any length");
    mac.update(data);
    mac.verify(tag.into())
}

/// Calls `StreamCipher::apply_keystream` on a fresh `ctr::Ctr128BE<aes::Aes256>`
/// keyed with `key` and an all-zero nonce: every byte of `buf` is XORed with
/// the keystream byte at its position. The cipher cannot run out of
/// keystream on a buffer that fits in memory.
#[verifier::external_body]
pub(crate) fn aes256_ctr_apply(key: &[u8; 32], buf: &mut [u8])
    ensures
        final(buf)@.len() == old(buf)@.len(),
        forall|i: int|
            0 <= i < old(buf)@.len() ==> #[trigger] final(buf)@[i] == old(buf)@[i]
                ^ aes256_ctr_keystream(key@, i),
{
    let mut cipher = ctr::Ctr128BE::<aes::Aes256>::new(key.into(), &[0u8; 16].into());
    cipher.apply_keystream(buf);
}

/// Calls `scrypt::Params::new` with the output length that scrypt
/// recommends: the result is `Ok` exactly when the cost is valid.
#[verifier::external_body]
pub(crate) fn scrypt_check(log_n: u8, r: u32, p: u32) -> (res: Result<
    (),
    scrypt::errors::InvalidParams,
>)
    ensures
        res is Ok <==> valid_cost(log_n, r, p),
{
    match scrypt::Params::new(log_n, r, p, scrypt::Params::RECOMMENDED_LEN) {
        Ok(_) => Ok(()),
        Err(err) => Err(err),
    }
}

/// Builds the `scrypt::Params` of the cost with `scrypt::Params::new` and
/// calls `scrypt::scrypt` with a 64-byte output buffer: the result is the
/// derived key. The derivation needs `128 * r * (N + p)` bytes of memory.
#[verifier::external_body]
pub(crate) fn scrypt_derive(
    passphrase: &[u8],
    salt: &[u8; 32],
    log_n: u8,
    r: u32,
    p: u32,
) -> (dk: [u8; 64])
    requires
        valid_cost(log_n, r, p),
    ensures
        dk == scrypt_output(passphrase@, salt@, log_n, r, p),
{
    let params = scrypt::Params::new(log_n, r, p, scrypt::Params::RECOMMENDED_LEN)
        .expect("the cost should be valid");
    let mut dk = [0u8; 64];
    scrypt::scrypt(passphrase, salt, &params, &mut dk)
        .expect("derived key size should be 64 bytes");
    dk
}

/// Calls `scrypt::Params::recommended` and returns its cost, which the crate
/// fixes at `log_n = 17`, `r = 8`, `p = 1`.
#[verifier::external_body]
pub(crate) fn scrypt_recommended() -> (cost: (u8, u32, u32))
    ensures
        cost == (17u8, 8u32, 1u32),
{
    let params = scrypt::Params::recommended();
    (params.log_n(), params.r(), params.p())
}

/// Formats a `scrypt::errors::InvalidParams` with its `Display` impl, which
/// writes a fixed sentence.
#[verifier::external_body]
pub(crate) fn invalid_params_message(err: &scrypt::errors::InvalidParams) -> (text: String)
    ensures
        text@ == "invalid scrypt parameters"@,
{
    err.to_string()
}

/// Draws 32 bytes from a `rand::rngs::StdRng` seeded by the operating system.
/// Nothing is known of them. The draw panics if the operating system cannot
/// supply entropy.
#[verifier::external_body]
pub(crate) fn random_salt() -> (salt: [u8; 32]) {
    rand::rngs::StdRng::from_entropy().gen()
}

} // verus!
