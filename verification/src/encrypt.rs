//! Encrypts to the scrypt encrypted data format.

use crate::bytes::write_bytes;
use crate::format::{
    checksum_of, cipher_key, mac_key, zeros, DerivedKey, Header, HeaderView, HEADER_SIZE,
    TAG_SIZE,
};
use crate::params::{recommended_cost, Cost, Params};
use crate::primitives::{
    aes256_ctr_apply, aes256_ctr_keystream, hmac_sha256, hmac_sha256_tag, random_salt,
    scrypt_derive, scrypt_output,
};
use vstd::prelude::*;

verus! {

/// The 64-byte key that scrypt derives from `passphrase` and `salt` at the
/// cost `cost`.
pub open spec fn derive_key(passphrase: Seq<u8>, salt: Seq<u8>, cost: Cost) -> Seq<u8> {
    scrypt_output(passphrase, salt, cost.log_n, cost.r, cost.p)@
}

/// `data` with the AES-256-CTR keystream for `key` applied: each byte is
/// XORed with the keystream byte at its position.
pub open spec fn apply_keystream(key: Seq<u8>, data: Seq<u8>) -> Seq<u8> {
    Seq::new(data.len(), |i: int| data[i] ^ aes256_ctr_keystream(key, i))
}

/// The header of data encrypted with the key derived from `passphrase` and
/// `salt` at the cost `cost`, with its checksum and its MAC in place.
pub open spec fn sealed_header(passphrase: Seq<u8>, cost: Cost, salt: Seq<u8>) -> HeaderView {
    let blank = HeaderView { cost, salt, checksum: zeros(16), mac: zeros(32) };
    let summed = blank.with_checksum(checksum_of(blank.fields()));
    let key = derive_key(passphrase, salt, cost);
    summed.with_mac(hmac_sha256_tag(mac_key(key), summed.signed())@)
}

/// The encrypted data for `plaintext` under a header `header` and a derived
/// key `key`: the header, the plaintext with the keystream applied, and the
/// MAC of both.
pub open spec fn sealed_with(header: HeaderView, key: Seq<u8>, plaintext: Seq<u8>) -> Seq<u8> {
    let signed = header.bytes() + apply_keystream(cipher_key(key), plaintext);
    signed + hmac_sha256_tag(mac_key(key), signed)@
}

/// The encrypted data for `plaintext` and `passphrase` at the cost `cost`,
/// when the salt drawn is `salt`.
pub open spec fn sealed(plaintext: Seq<u8>, passphrase: Seq<u8>, cost: Cost, salt: Seq<u8>) -> Seq<
    u8,
> {
    sealed_with(
        sealed_header(passphrase, cost, salt),
        derive_key(passphrase, salt, cost),
        plaintext,
    )
}

/// What an [`Encryptor`] holds: its view in contracts.
pub struct EncryptorView {
    /// The header, with its checksum and its MAC in place.
    pub header: HeaderView,
    /// The derived key, 64 bytes.
    pub key: Seq<u8>,
    /// The data to encrypt.
    pub plaintext: Seq<u8>,
}

impl EncryptorView {
    /// The encrypted data that this encryptor writes.
    pub open spec fn output(self) -> Seq<u8> {
        sealed_with(self.header, self.key, self.plaintext)
    }
}

/// Encryptor for the scrypt encrypted data format.
#[derive(Debug)]
pub struct Encryptor<'m> {
    header: Header,
    dk: DerivedKey,
    plaintext: &'m [u8],
}

impl<'m> View for Encryptor<'m> {
    type V = EncryptorView;

    closed spec fn view(&self) -> EncryptorView {
        EncryptorView { header: self.header@, key: self.dk@, plaintext: self.plaintext@ }
    }
}

impl<'m> Clone for Encryptor<'m> {
    fn clone(&self) -> (encryptor: Self)
        ensures
            encryptor@ == self@,
    {
        Self { header: self.header.clone(), dk: self.dk.clone(), plaintext: self.plaintext }
    }
}

impl<'m> Encryptor<'m> {
    /// Creates a new `Encryptor`.
    ///
    /// This uses the recommended scrypt parameters created by
    /// [`Params::recommended`] which are sufficient for most use-cases.
    pub fn new(plaintext: &'m [u8], passphrase: &[u8]) -> (encryptor: Self)
        ensures
            encryptor@.plaintext == plaintext@,
            encryptor@.header.salt.len() == 32,
            encryptor@.header == sealed_header(
                passphrase@,
                recommended_cost(),
                encryptor@.header.salt,
            ),
            encryptor@.key == derive_key(passphrase@, encryptor@.header.salt, recommended_cost()),
    {
        Self::with_params(plaintext, passphrase, Params::recommended())
    }

    /// Creates a new `Encryptor` with the specified [`Params`].
    ///
    /// The salt is drawn at random; the header that this encryptor holds
    /// tells which one it was.
    pub fn with_params(plaintext: &'m [u8], passphrase: &[u8], params: Params) -> (encryptor: Self)
        ensures
            encryptor@.plaintext == plaintext@,
            encryptor@.header.salt.len() == 32,
            encryptor@.header == sealed_header(passphrase@, params@, encryptor@.header.salt),
            encryptor@.key == derive_key(passphrase@, encryptor@.header.salt, params@),
    {
        let salt = random_salt();
        Self::with_params_and_salt(plaintext, passphrase, params, salt)
    }

    /// Creates a new `Encryptor` with the specified [`Params`] and the salt
    /// `salt`.
    ///
    /// A salt must never be used twice: the cipher runs with a fixed nonce,
    /// so two encryptions under one passphrase and one salt share their
    /// keystream.
    pub fn with_params_and_salt(
        plaintext: &'m [u8],
        passphrase: &[u8],
        params: Params,
        salt: [u8; 32],
    ) -> (encryptor: Self)
        ensures
            encryptor@ == (EncryptorView {
                header: sealed_header(passphrase@, params@, salt@),
                key: derive_key(passphrase@, salt@, params@),
                plaintext: plaintext@,
            }),
    {
        let mut header = Header::with_salt(params, salt);

        // The derived key size is 64 bytes. The first 256 bits are for AES-256-CTR key,
        // and the last 256 bits are for HMAC-SHA-256 key.
        let log_n = params.log_n();
        let dk = scrypt_derive(passphrase, &header.salt(), log_n, params.r(), params.p());
        let dk = DerivedKey::new(dk);

        header.compute_checksum();
        header.compute_mac(&dk.mac());
        Self { header, dk, plaintext }
    }

    /// Returns the number of output bytes of the encrypted data.
    pub fn out_len(&self) -> (len: usize)
        requires
            self@.plaintext.len() + 128 <= usize::MAX,
        ensures
            len == 96 + self@.plaintext.len() + 32,
    {
        HEADER_SIZE + self.plaintext.len() + TAG_SIZE
    }

    /// Encrypts the plaintext into `buf`.
    ///
    /// `buf` must have the length that [`Encryptor::out_len`] gives.
    pub fn encrypt(&self, buf: &mut [u8])
        requires
            old(buf)@.len() == 96 + self@.plaintext.len() + 32,
        ensures
            final(buf)@ == self@.output(),
    {
        let len = self.plaintext.len();
        let body_end = buf.len() - TAG_SIZE;
        let header = self.header.as_bytes();
        write_bytes(buf, 0, &header);
        write_bytes(buf, HEADER_SIZE, self.plaintext);
        let (_, rest) = buf.split_at_mut(HEADER_SIZE);
        let (body, _) = rest.split_at_mut(len);
        aes256_ctr_apply(&self.dk.encrypt(), body);
        let ghost signed = self@.header.bytes() + apply_keystream(
            cipher_key(self@.key),
            self@.plaintext,
        );
        proof {
            assert(buf@.subrange(0, body_end as int) =~= signed);
        }
        let mac = hmac_sha256(&self.dk.mac(), &buf[0..body_end]);
        write_bytes(buf, body_end, &mac);
    }

    /// Encrypts the plaintext and into a newly allocated [`Vec`].
    pub fn encrypt_to_vec(&self) -> (out: Vec<u8>)
        requires
            self@.plaintext.len() + 128 <= usize::MAX,
        ensures
            out@ == self@.output(),
    {
        let mut buf = vec![0u8; self.out_len()];
        self.encrypt(buf.as_mut_slice());
        buf
    }
}

/// Encrypts `plaintext` and into a newly allocated [`Vec`].
///
/// This uses the recommended scrypt parameters created by
/// [`Params::recommended`] which are sufficient for most use-cases.
///
/// This is a convenience function for using [`Encryptor::new`] and
/// [`Encryptor::encrypt_to_vec`].
pub fn encrypt(plaintext: &[u8], passphrase: &[u8]) -> (out: Vec<u8>)
    requires
        plaintext@.len() + 128 <= usize::MAX,
    ensures
        out@.len() == plaintext@.len() + 128,
        out@ == sealed(plaintext@, passphrase@, recommended_cost(), out@.subrange(16, 48)),
{
    let encryptor = Encryptor::new(plaintext, passphrase);
    proof {
        lemma_sealed_layout(
            plaintext@,
            passphrase@,
            recommended_cost(),
            encryptor@.header.salt,
        );
    }
    encryptor.encrypt_to_vec()
}

/// Encrypts `plaintext` with the specified [`Params`] and into a newly
/// allocated [`Vec`].
///
/// This is a convenience function for using [`Encryptor::with_params`] and
/// [`Encryptor::encrypt_to_vec`].
pub fn encrypt_with_params(plaintext: &[u8], passphrase: &[u8], params: Params) -> (out: Vec<u8>)
    requires
        plaintext@.len() + 128 <= usize::MAX,
    ensures
        out@.len() == plaintext@.len() + 128,
        out@ == sealed(plaintext@, passphrase@, params@, out@.subrange(16, 48)),
{
    let encryptor = Encryptor::with_params(plaintext, passphrase, params);
    proof {
        use_type_invariant(&params);
        lemma_sealed_layout(plaintext@, passphrase@, params@, encryptor@.header.salt);
    }
    encryptor.encrypt_to_vec()
}

/// Where the parts of encrypted data lie: the header takes the first 96
/// bytes, with the salt at bytes 16 to 48, the body has the length of the
/// plaintext, and the MAC takes the last 32 bytes.
pub proof fn lemma_sealed_layout(
    plaintext: Seq<u8>,
    passphrase: Seq<u8>,
    cost: Cost,
    salt: Seq<u8>,
)
    requires
        salt.len() == 32,
    ensures
        sealed(plaintext, passphrase, cost, salt).len() == plaintext.len() + 128,
        sealed(plaintext, passphrase, cost, salt).subrange(0, 96) == sealed_header(
            passphrase,
            cost,
            salt,
        ).bytes(),
        sealed(plaintext, passphrase, cost, salt).subrange(16, 48) == salt,
        sealed(plaintext, passphrase, cost, salt).subrange(96, 96 + plaintext.len() as int)
            == apply_keystream(cipher_key(derive_key(passphrase, salt, cost)), plaintext),
{
    let header = sealed_header(passphrase, cost, salt);
    let blob = sealed(plaintext, passphrase, cost, salt);
    let body = apply_keystream(cipher_key(derive_key(passphrase, salt, cost)), plaintext);
}

} // verus!
