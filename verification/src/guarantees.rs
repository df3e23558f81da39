//! What holds of the format as a whole: theorems that relate encryption,
//! decryption and the reading of parameters.
//!
//! The theorems speak of the same spec functions as the contracts of the
//! executable functions: [`sealed`] is what [`crate::encrypt_with_params`]
//! returns, [`decrypted`] is what [`crate::decrypt`] returns, [`opened`] is
//! what [`crate::Decryptor::new`] returns and [`parse_header`] is what
//! [`crate::Params::new`] reads.
//!
//! SHA-256 and HMAC-SHA-256 map many inputs to one output, so no proof can
//! rule out that a changed input has the digest or the tag of the unchanged
//! one.
//! Where detection rests on that, the theorem says so in its `requires`.

use crate::decrypt::{decrypted, opened, DecryptorView};
use crate::bytes::lemma_array_equality;
use crate::encrypt::{apply_keystream, derive_key, sealed, sealed_header};
use crate::error::ErrorKind;
use crate::format::{
    checksum_of, cipher_key, lemma_header_bytes_parse, lemma_parsed_header_is_prefix, mac_key,
    parse_header, HeaderView,
};
use crate::params::Cost;
use crate::primitives::{aes256_ctr_keystream, hmac_sha256_tag};
use vstd::prelude::*;

verus! {

/// Applying the keystream twice gives the data back.
pub proof fn lemma_keystream_involution(key: Seq<u8>, data: Seq<u8>)
    ensures
        apply_keystream(key, apply_keystream(key, data)) == data,
{
    let once = apply_keystream(key, data);
    let twice = apply_keystream(key, once);
    assert forall|i: int| 0 <= i < data.len() implies twice[i] == data[i] by {
        let d = data[i];
        let k = aes256_ctr_keystream(key, i);
        assert((d ^ k) ^ k == d) by (bit_vector);
    }
}

/// Reading the header of encrypted data with the passphrase that it was
/// encrypted with succeeds, and gives the header, the key, the body and the
/// MAC that encryption wrote.
pub proof fn lemma_sealed_opens(
    plaintext: Seq<u8>,
    passphrase: Seq<u8>,
    cost: Cost,
    salt: Seq<u8>,
)
    requires
        cost.valid(),
        salt.len() == 32,
    ensures
        opened(sealed(plaintext, passphrase, cost, salt), passphrase) == Ok::<
            DecryptorView,
            ErrorKind,
        >(
            DecryptorView {
                header: sealed_header(passphrase, cost, salt),
                key: derive_key(passphrase, salt, cost),
                body: apply_keystream(cipher_key(derive_key(passphrase, salt, cost)), plaintext),
                tag: hmac_sha256_tag(
                    mac_key(derive_key(passphrase, salt, cost)),
                    sealed_header(passphrase, cost, salt).bytes() + apply_keystream(
                        cipher_key(derive_key(passphrase, salt, cost)),
                        plaintext,
                    ),
                )@,
            },
        ),
{
    let header = sealed_header(passphrase, cost, salt);
    let key = derive_key(passphrase, salt, cost);
    let body = apply_keystream(cipher_key(key), plaintext);
    let tag = hmac_sha256_tag(mac_key(key), header.bytes() + body)@;
    let data = sealed(plaintext, passphrase, cost, salt);
    lemma_header_bytes_parse(header, body + tag);
    assert(data =~= header.bytes() + (body + tag));
    assert(data.subrange(96, data.len() - 32) =~= body);
    assert(data.subrange(data.len() - 32, data.len() as int) =~= tag);
}

/// Round trip: decrypting encrypted data with the passphrase that it was
/// encrypted with gives the plaintext back, whatever the plaintext, the
/// passphrase, the cost and the salt.
pub proof fn theorem_round_trip(
    plaintext: Seq<u8>,
    passphrase: Seq<u8>,
    cost: Cost,
    salt: Seq<u8>,
)
    requires
        cost.valid(),
        salt.len() == 32,
    ensures
        decrypted(sealed(plaintext, passphrase, cost, salt), passphrase) == Ok::<
            Seq<u8>,
            ErrorKind,
        >(plaintext),
{
    lemma_sealed_opens(plaintext, passphrase, cost, salt);
    lemma_keystream_involution(cipher_key(derive_key(passphrase, salt, cost)), plaintext);
}

/// The parameters survive encryption: the header of encrypted data parses,
/// and holds the cost that the data was encrypted at, whatever the plaintext
/// and the passphrase.
pub proof fn theorem_params_survive(
    plaintext: Seq<u8>,
    passphrase: Seq<u8>,
    cost: Cost,
    salt: Seq<u8>,
)
    requires
        cost.valid(),
        salt.len() == 32,
    ensures
        parse_header(sealed(plaintext, passphrase, cost, salt)) matches Ok(header) && header.cost
            == cost,
{
    lemma_sealed_opens(plaintext, passphrase, cost, salt);
}

/// What a decryptor holds is authentic: where the header of `data` is read
/// with success, the header that the decryptor trusts is the first 96 bytes
/// of `data`, its checksum is the checksum of its first 48 bytes, its MAC is
/// the MAC of its first 64 bytes under the key derived from the passphrase,
/// and the body and the last 32 bytes of `data` are held as they came.
pub proof fn theorem_opened_header_is_verified(data: Seq<u8>, passphrase: Seq<u8>)
    requires
        opened(data, passphrase) is Ok,
    ensures
        ({
            let decryptor = opened(data, passphrase)->Ok_0;
            &&& data.len() >= 128
            &&& decryptor.header.well_formed()
            &&& decryptor.header.bytes() == data.subrange(0, 96)
            &&& decryptor.key == derive_key(
                passphrase,
                data.subrange(16, 48),
                decryptor.header.cost,
            )
            &&& data.subrange(48, 64) == checksum_of(data.subrange(0, 48))
            &&& data.subrange(64, 96) == hmac_sha256_tag(
                mac_key(decryptor.key),
                data.subrange(0, 64),
            )@
            &&& decryptor.header.bytes() + decryptor.body + decryptor.tag == data
        }),
{
    let decryptor = opened(data, passphrase)->Ok_0;
    lemma_parsed_header_is_prefix(data);
}

/// Minimum length: data shorter than 128 bytes is rejected for its length,
/// before any of it is read.
pub proof fn theorem_short_data_is_rejected(data: Seq<u8>, passphrase: Seq<u8>)
    requires
        data.len() < 128,
    ensures
        parse_header(data) == Err::<HeaderView, ErrorKind>(ErrorKind::InvalidLength),
        opened(data, passphrase) == Err::<DecryptorView, ErrorKind>(ErrorKind::InvalidLength),
        decrypted(data, passphrase) == Err::<Seq<u8>, ErrorKind>(ErrorKind::InvalidLength),
{
}

/// The header alone decides whether a decryptor can be made: two inputs of at
/// least 128 bytes that agree on their first 96 bytes are both accepted or
/// both rejected, and rejected for the same reason.
pub proof fn theorem_opening_reads_the_header_only(
    data: Seq<u8>,
    other: Seq<u8>,
    passphrase: Seq<u8>,
)
    requires
        data.len() >= 128,
        other.len() >= 128,
        other.subrange(0, 96) == data.subrange(0, 96),
    ensures
        opened(data, passphrase) is Ok <==> opened(other, passphrase) is Ok,
        opened(data, passphrase) matches Err(err) ==> opened(other, passphrase) == Err::<
            DecryptorView,
            ErrorKind,
        >(err),
{
    lemma_same_header(data, other);
}

/// Two inputs of at least 128 bytes that agree on their first 96 bytes parse
/// alike.
proof fn lemma_same_header(data: Seq<u8>, other: Seq<u8>)
    requires
        data.len() >= 128,
        other.len() >= 128,
        other.subrange(0, 96) == data.subrange(0, 96),
    ensures
        parse_header(other) == parse_header(data),
{
    assert forall|i: int| 0 <= i < 96 implies other[i] == data[i] by {
        assert(data.subrange(0, 96)[i] == data[i]);
    }
    assert(other.subrange(0, 6) =~= data.subrange(0, 6));
    assert(other.subrange(8, 12) =~= data.subrange(8, 12));
    assert(other.subrange(12, 16) =~= data.subrange(12, 16));
    assert(other.subrange(16, 48) =~= data.subrange(16, 48));
    assert(other.subrange(48, 64) =~= data.subrange(48, 64));
    assert(other.subrange(64, 96) =~= data.subrange(64, 96));
}

/// Wrong passphrase: where another passphrase does not happen to give the
/// header MAC of the data, it is rejected with `InvalidHeaderMac`, and the
/// body plays no part in that.
///
/// `data` is valid for `passphrase`; `other` is the passphrase that is tried.
/// The rejection holds of any input that shares the header of `data`.
///
/// Two passphrases can give the same MAC because they can derive the same
/// key: scrypt keys HMAC-SHA-256 with the passphrase, and HMAC replaces a key
/// of more than 64 bytes by its SHA-256 digest, so such a passphrase and its
/// digest open the same data.
pub proof fn theorem_wrong_passphrase_is_rejected(
    data: Seq<u8>,
    passphrase: Seq<u8>,
    other: Seq<u8>,
    body: Seq<u8>,
)
    requires
        opened(data, passphrase) matches Ok(decryptor) && hmac_sha256_tag(
            mac_key(derive_key(other, decryptor.header.salt, decryptor.header.cost)),
            decryptor.header.signed(),
        )@ != decryptor.header.mac,
        body.len() >= 32,
    ensures
        opened(data, other) == Err::<DecryptorView, ErrorKind>(ErrorKind::InvalidHeaderMac),
        decrypted(data, other) == Err::<Seq<u8>, ErrorKind>(ErrorKind::InvalidHeaderMac),
        opened(data.subrange(0, 96) + body, other) == Err::<DecryptorView, ErrorKind>(
            ErrorKind::InvalidHeaderMac,
        ),
{
    let replaced = data.subrange(0, 96) + body;
    assert(replaced.subrange(0, 96) =~= data.subrange(0, 96));
    lemma_same_header(data, replaced);
}

/// Tamper detection in the header: where one of the first 64 bytes of valid
/// data is changed, decryption fails, whatever the passphrase.
///
/// Which error comes depends on the place of the change: the magic number
/// (bytes 0 to 6), the version (byte 6), the parameters (bytes 7 to 16), the
/// salt (bytes 16 to 48) or the checksum (bytes 48 to 64). For a change in the
/// parameters or the salt, this rests on the changed fields not having the
/// checksum of the unchanged ones.
pub proof fn theorem_header_tamper_is_detected(
    data: Seq<u8>,
    passphrase: Seq<u8>,
    tampered: Seq<u8>,
    index: int,
    other: Seq<u8>,
)
    requires
        decrypted(data, passphrase) is Ok,
        tampered.len() == data.len(),
        0 <= index < 64,
        tampered[index] != data[index],
        forall|i: int| 0 <= i < 64 && i != index ==> tampered[i] == data[i],
        7 <= index < 48 ==> checksum_of(tampered.subrange(0, 48)) != checksum_of(
            data.subrange(0, 48),
        ),
    ensures
        opened(tampered, other) is Err,
        decrypted(tampered, other) == Err::<Seq<u8>, ErrorKind>(opened(tampered, other)->Err_0),
        index < 6 ==> opened(tampered, other)->Err_0 == ErrorKind::InvalidMagicNumber,
        index == 6 ==> opened(tampered, other)->Err_0 == ErrorKind::UnknownVersion(tampered[6]),
        7 <= index < 16 ==> opened(tampered, other)->Err_0 == ErrorKind::InvalidParams || opened(
            tampered,
            other,
        )->Err_0 == ErrorKind::InvalidChecksum,
        16 <= index < 64 ==> opened(tampered, other)->Err_0 == ErrorKind::InvalidChecksum,
{
    lemma_parsed_header_is_prefix(data);
    if index < 6 {
        // The magic number is changed.
        assert(tampered.subrange(0, 6)[index] != data.subrange(0, 6)[index]);
    } else {
        assert(tampered.subrange(0, 6) =~= data.subrange(0, 6));
        if index > 6 && parse_header(tampered) is Ok {
            lemma_parsed_header_is_prefix(tampered);
            if index < 48 {
                // The fields are changed, the checksum is the old one.
                assert(tampered.subrange(48, 64) =~= data.subrange(48, 64));
            } else {
                // The checksum is changed, the fields are the old ones.
                assert(tampered.subrange(0, 48) =~= data.subrange(0, 48));
                assert(tampered.subrange(48, 64)[index - 48] != data.subrange(48, 64)[index
                    - 48]);
            }
        }
    }
}

/// Tamper detection in the header MAC: where one of the bytes 64 to 96 of
/// valid data is changed, no decryptor can be made with the passphrase of
/// the data: the header MAC is found invalid.
pub proof fn theorem_header_mac_tamper_is_detected(
    data: Seq<u8>,
    passphrase: Seq<u8>,
    tampered: Seq<u8>,
    index: int,
)
    requires
        decrypted(data, passphrase) is Ok,
        tampered.len() == data.len(),
        64 <= index < 96,
        tampered[index] != data[index],
        forall|i: int| 0 <= i < 96 && i != index ==> tampered[i] == data[i],
    ensures
        opened(tampered, passphrase) == Err::<DecryptorView, ErrorKind>(
            ErrorKind::InvalidHeaderMac,
        ),
        decrypted(tampered, passphrase) == Err::<Seq<u8>, ErrorKind>(ErrorKind::InvalidHeaderMac),
{
    lemma_parsed_header_is_prefix(data);
    assert(tampered.subrange(0, 6) =~= data.subrange(0, 6));
    assert(tampered.subrange(8, 12) =~= data.subrange(8, 12));
    assert(tampered.subrange(12, 16) =~= data.subrange(12, 16));
    assert(tampered.subrange(16, 48) =~= data.subrange(16, 48));
    assert(tampered.subrange(48, 64) =~= data.subrange(48, 64));
    assert(tampered.subrange(64, 96)[index - 64] != data.subrange(64, 96)[index - 64]);
}

/// Tamper detection in the body: where one byte of the body or of the last
/// 32 bytes of valid data is changed, a decryptor can still be made, for the
/// header is untouched, and decryption fails with `InvalidMac`.
///
/// For a change in the body, this rests on the changed data not having the
/// MAC of the unchanged data.
pub proof fn theorem_body_tamper_is_detected(
    data: Seq<u8>,
    passphrase: Seq<u8>,
    tampered: Seq<u8>,
    index: int,
)
    requires
        decrypted(data, passphrase) is Ok,
        tampered.len() == data.len(),
        96 <= index < data.len(),
        tampered[index] != data[index],
        forall|i: int| 0 <= i < data.len() && i != index ==> tampered[i] == data[i],
        index < data.len() - 32 ==> hmac_sha256_tag(
            mac_key(opened(data, passphrase)->Ok_0.key),
            tampered.subrange(0, data.len() - 32),
        ) != hmac_sha256_tag(
            mac_key(opened(data, passphrase)->Ok_0.key),
            data.subrange(0, data.len() - 32),
        ),
    ensures
        opened(tampered, passphrase) is Ok,
        decrypted(tampered, passphrase) == Err::<Seq<u8>, ErrorKind>(ErrorKind::InvalidMac),
{
    let len = data.len() as int;
    let end = len - 32;
    assert(tampered.subrange(0, 96) =~= data.subrange(0, 96));
    lemma_same_header(data, tampered);
    lemma_parsed_header_is_prefix(data);
    let before = opened(data, passphrase)->Ok_0;
    let after = opened(tampered, passphrase)->Ok_0;
    assert(before.header.bytes() + before.body =~= data.subrange(0, end));
    assert(after.header.bytes() + after.body =~= tampered.subrange(0, end));
    lemma_array_equality(
        hmac_sha256_tag(mac_key(before.key), tampered.subrange(0, end)),
        hmac_sha256_tag(mac_key(before.key), data.subrange(0, end)),
    );
    if index < end {
        assert(after.tag =~= before.tag);
    } else {
        assert(tampered.subrange(0, end) =~= data.subrange(0, end));
        assert(after.tag[index - end] != before.tag[index - end]);
    }
}

} // verus!
