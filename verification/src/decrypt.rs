//! Decrypts from the scrypt encrypted data format.

use crate::bytes::{concat, lemma_array_equality, read_array, write_bytes};
use crate::encrypt::{apply_keystream, derive_key};
use crate::error::{Error, ErrorKind};
use crate::format::{
    checksum_of, cipher_key, mac_key, parse_header, DerivedKey, Header, HeaderView, HEADER_SIZE,
    TAG_SIZE,
};
use crate::primitives::{aes256_ctr_apply, hmac_sha256_tag, hmac_sha256_verify, scrypt_derive};
use vstd::prelude::*;

verus! {

/// What a [`Decryptor`] holds: its view in contracts.
pub struct DecryptorView {
    /// The header, its checksum and its MAC verified.
    pub header: HeaderView,
    /// The derived key, 64 bytes.
    pub key: Seq<u8>,
    /// The encrypted body.
    pub body: Seq<u8>,
    /// The MAC that came with the encrypted data, 32 bytes.
    pub tag: Seq<u8>,
}

impl DecryptorView {
    /// What decryption gives: the plaintext, if the MAC that came with the
    /// encrypted data is the MAC of the header and the body.
    pub open spec fn plaintext(self) -> Result<Seq<u8>, ErrorKind> {
        if hmac_sha256_tag(mac_key(self.key), self.header.bytes() + self.body)@ != self.tag {
            Err(ErrorKind::InvalidMac)
        } else {
            Ok(apply_keystream(cipher_key(self.key), self.body))
        }
    }
}

/// What reading the header of `data` with `passphrase` gives: a decryptor, or
/// the first reason to reject `data`.
///
/// The checks come in this order, and each one is made only if those before
/// it passed: the header parses, its checksum is the checksum of its fields,
/// and its MAC is the MAC of its first 64 bytes under the key derived from
/// `passphrase`. The body and the last 32 bytes are not looked at.
pub open spec fn opened(data: Seq<u8>, passphrase: Seq<u8>) -> Result<DecryptorView, ErrorKind> {
    match parse_header(data) {
        Err(err) => Err(err),
        Ok(header) => {
            let key = derive_key(passphrase, header.salt, header.cost);
            if header.checksum != checksum_of(header.fields()) {
                Err(ErrorKind::InvalidChecksum)
            } else if header.mac != hmac_sha256_tag(mac_key(key), header.signed())@ {
                Err(ErrorKind::InvalidHeaderMac)
            } else {
                Ok(
                    DecryptorView {
                        header,
                        key,
                        body: data.subrange(96, data.len() - 32),
                        tag: data.subrange(data.len() - 32, data.len() as int),
                    },
                )
            }
        },
    }
}

/// What decrypting `data` with `passphrase` gives: the plaintext, or the
/// first reason to reject `data`.
pub open spec fn decrypted(data: Seq<u8>, passphrase: Seq<u8>) -> Result<Seq<u8>, ErrorKind> {
    match opened(data, passphrase) {
        Err(err) => Err(err),
        Ok(decryptor) => decryptor.plaintext(),
    }
}

/// Decryptor for the scrypt encrypted data format.
#[derive(Debug)]
pub struct Decryptor<'c> {
    header: Header,
    dk: DerivedKey,
    ciphertext: &'c [u8],
    mac: [u8; 32],
}

impl<'c> View for Decryptor<'c> {
    type V = DecryptorView;

    closed spec fn view(&self) -> DecryptorView {
        DecryptorView {
            header: self.header@,
            key: self.dk@,
            body: self.ciphertext@,
            tag: self.mac@,
        }
    }
}

impl<'c> Clone for Decryptor<'c> {
    fn clone(&self) -> (decryptor: Self)
        ensures
            decryptor@ == self@,
    {
        Self {
            header: self.header.clone(),
            dk: self.dk.clone(),
            ciphertext: self.ciphertext,
            mac: self.mac,
        }
    }
}

impl<'c> Decryptor<'c> {
    /// Creates a new `Decryptor`.
    ///
    /// # Errors
    ///
    /// Returns [`Err`] if any of the following are true:
    ///
    /// - `ciphertext` is shorter than 128 bytes.
    /// - The magic number is invalid.
    /// - The version number is the unrecognized scrypt version number.
    /// - The scrypt parameters are invalid.
    /// - The checksum of the header mismatch.
    /// - The MAC (authentication tag) of the header is invalid.
    pub fn new(ciphertext: &'c [u8], passphrase: &[u8]) -> (res: Result<Self, Error>)
        ensures
            match res {
                Ok(decryptor) => opened(ciphertext@, passphrase@) == Ok::<
                    DecryptorView,
                    ErrorKind,
                >(decryptor@),
                Err(err) => opened(ciphertext@, passphrase@) == Err::<DecryptorView, ErrorKind>(
                    err@,
                ),
            },
            ciphertext@.len() < 128 ==> res matches Err(Error::InvalidLength),
    {
        let mut header = match Header::parse(ciphertext) {
            Ok(header) => header,
            Err(err) => return Err(err),
        };
        match header.verify_checksum(&ciphertext[48..64]) {
            Ok(()) => {},
            Err(err) => return Err(err),
        }

        // The derived key size is 64 bytes. The first 256 bits are for AES-256-CTR key,
        // and the last 256 bits are for HMAC-SHA-256 key.
        let params = header.params();
        let log_n = params.log_n();
        let dk = scrypt_derive(passphrase, &header.salt(), log_n, params.r(), params.p());
        let dk = DerivedKey::new(dk);

        let tag: [u8; 32] = read_array(ciphertext, 64);
        match header.verify_mac(&dk.mac(), &tag) {
            Ok(()) => {},
            Err(err) => return Err(err),
        }

        let body_end = ciphertext.len() - TAG_SIZE;
        let mac: [u8; 32] = read_array(ciphertext, body_end);
        let ciphertext = &ciphertext[HEADER_SIZE..body_end];
        Ok(Self { header, dk, ciphertext, mac })
    }

    /// Decrypts the ciphertext into `buf`.
    ///
    /// The MAC is verified first: `buf` is written only if the encrypted data
    /// is authentic. `buf` must have the length that [`Decryptor::out_len`]
    /// gives.
    ///
    /// # Errors
    ///
    /// Returns [`Err`] if the MAC (authentication tag) of the scrypt encrypted
    /// data format is invalid.
    pub fn decrypt(&self, buf: &mut [u8]) -> (res: Result<(), Error>)
        requires
            old(buf)@.len() == self@.body.len(),
        ensures
            match res {
                Ok(()) => self@.plaintext() == Ok::<Seq<u8>, ErrorKind>(final(buf)@),
                Err(err) => self@.plaintext() == Err::<Seq<u8>, ErrorKind>(err@) && final(buf)@
                    == old(buf)@,
            },
    {
        let header = self.header.as_bytes();
        let data = concat(&header, self.ciphertext);
        let key = self.dk.mac();
        proof {
            lemma_array_equality(hmac_sha256_tag(key@, data@), self.mac);
        }
        match hmac_sha256_verify(&key, data.as_slice(), &self.mac) {
            Ok(()) => {},
            Err(err) => return Err(Error::InvalidMac(err)),
        }
        write_bytes(buf, 0, self.ciphertext);
        aes256_ctr_apply(&self.dk.encrypt(), buf);
        assert(buf@ =~= apply_keystream(cipher_key(self@.key), self@.body));
        Ok(())
    }

    /// Decrypts the ciphertext and into a newly allocated [`Vec`].
    ///
    /// # Errors
    ///
    /// Returns [`Err`] if the MAC (authentication tag) of the scrypt encrypted
    /// data format is invalid.
    pub fn decrypt_to_vec(&self) -> (res: Result<Vec<u8>, Error>)
        ensures
            match res {
                Ok(plaintext) => self@.plaintext() == Ok::<Seq<u8>, ErrorKind>(plaintext@),
                Err(err) => self@.plaintext() == Err::<Seq<u8>, ErrorKind>(err@),
            },
    {
        let mut buf = vec![0u8; self.out_len()];
        match self.decrypt(buf.as_mut_slice()) {
            Ok(()) => Ok(buf),
            Err(err) => Err(err),
        }
    }

    /// Returns the number of output bytes of the decrypted data.
    pub fn out_len(&self) -> (len: usize)
        ensures
            len == self@.body.len(),
    {
        self.ciphertext.len()
    }
}

/// Decrypts `ciphertext` and into a newly allocated [`Vec`].
///
/// This is a convenience function for using [`Decryptor::new`] and
/// [`Decryptor::decrypt_to_vec`].
///
/// # Errors
///
/// Returns [`Err`] if any of the following are true:
///
/// - `ciphertext` is shorter than 128 bytes.
/// - The magic number is invalid.
/// - The version number is the unrecognized scrypt version number.
/// - The scrypt parameters are invalid.
/// - The checksum of the header mismatch.
/// - The MAC (authentication tag) of the header is invalid.
/// - The MAC (authentication tag) of the scrypt encrypted data format is
///   invalid.
pub fn decrypt(ciphertext: &[u8], passphrase: &[u8]) -> (res: Result<Vec<u8>, Error>)
    ensures
        match res {
            Ok(plaintext) => decrypted(ciphertext@, passphrase@) == Ok::<Seq<u8>, ErrorKind>(
                plaintext@,
            ),
            Err(err) => decrypted(ciphertext@, passphrase@) == Err::<Seq<u8>, ErrorKind>(err@),
        },
        ciphertext@.len() < 128 ==> res matches Err(Error::InvalidLength),
{
    match Decryptor::new(ciphertext, passphrase) {
        Ok(decryptor) => decryptor.decrypt_to_vec(),
        Err(err) => Err(err),
    }
}

} // verus!
