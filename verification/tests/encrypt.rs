use aes::cipher::{KeyIvInit, StreamCipher};
use hmac::{Hmac, Mac};
use scryptenc::{Decryptor, Encryptor, Params, HEADER_SIZE, TAG_SIZE};
use sha2::{Digest, Sha256};

const PASSPHRASE: &str = "passphrase";
const TEST_DATA: &[u8] = b"Hello, world!\n";

#[test]
fn encrypt_success() {
    {
        let cipher = Encryptor::with_params(
            TEST_DATA,
            PASSPHRASE.as_bytes(),
            Params::from_cost(10, 8, 1).unwrap(),
        );
        let mut buf = vec![u8::default(); cipher.out_len()];
        cipher.encrypt(&mut buf);
        assert_ne!(buf, TEST_DATA);
        assert_eq!(buf.len(), TEST_DATA.len() + 128);

        let plaintext = Decryptor::new(&buf, PASSPHRASE.as_bytes())
            .and_then(|c| c.decrypt_to_vec())
            .unwrap();
        assert_eq!(plaintext, TEST_DATA);
    }

    {
        let ciphertext = Encryptor::with_params(
            TEST_DATA,
            PASSPHRASE.as_bytes(),
            Params::from_cost(10, 8, 1).unwrap(),
        )
        .encrypt_to_vec();
        assert_ne!(ciphertext, TEST_DATA);
        assert_eq!(ciphertext.len(), TEST_DATA.len() + 128);

        let plaintext = Decryptor::new(&ciphertext, PASSPHRASE.as_bytes())
            .and_then(|c| c.decrypt_to_vec())
            .unwrap();
        assert_eq!(plaintext, TEST_DATA);
    }
}

#[test]
fn success_with_params() {
    let cipher = Encryptor::with_params(
        TEST_DATA,
        PASSPHRASE.as_bytes(),
        Params::from_cost(4, 10, 16).unwrap(),
    );
    let mut buf = [u8::default(); TEST_DATA.len() + HEADER_SIZE + TAG_SIZE];
    cipher.encrypt(&mut buf);
    assert_ne!(buf, TEST_DATA);
    assert_eq!(buf.len(), TEST_DATA.len() + HEADER_SIZE + TAG_SIZE);

    let params = scryptenc::Params::new(&buf).unwrap();
    assert_eq!(params.log_n(), 4);
    assert_eq!(params.r(), 10);
    assert_eq!(params.p(), 16);

    let cipher = Decryptor::new(&buf, PASSPHRASE.as_bytes()).unwrap();
    let mut buf = [u8::default(); TEST_DATA.len()];
    cipher.decrypt(&mut buf).unwrap();
    assert_eq!(buf, TEST_DATA);
}

#[test]
fn encrypt_success_to_vec() {
    let ciphertext = Encryptor::with_params(
        TEST_DATA,
        PASSPHRASE.as_bytes(),
        Params::from_cost(4, 10, 16).unwrap(),
    )
    .encrypt_to_vec();
    assert_ne!(ciphertext, TEST_DATA);
    assert_eq!(ciphertext.len(), TEST_DATA.len() + HEADER_SIZE + TAG_SIZE);

    let params = scryptenc::Params::new(&ciphertext).unwrap();
    assert_eq!(params.log_n(), 4);
    assert_eq!(params.r(), 10);
    assert_eq!(params.p(), 16);

    let plaintext = Decryptor::new(&ciphertext, PASSPHRASE.as_bytes())
        .and_then(|c| c.decrypt_to_vec())
        .unwrap();
    assert_eq!(plaintext, TEST_DATA);
}

#[test]
fn encrypt_magic_number() {
    let cipher = Encryptor::with_params(
        TEST_DATA,
        PASSPHRASE.as_bytes(),
        Params::from_cost(4, 10, 16).unwrap(),
    );
    let mut buf = [u8::default(); TEST_DATA.len() + HEADER_SIZE + TAG_SIZE];
    cipher.encrypt(&mut buf);
    assert_eq!(&buf[..6], b"scrypt");

    let ciphertext = Encryptor::with_params(
        TEST_DATA,
        PASSPHRASE.as_bytes(),
        Params::from_cost(10, 8, 1).unwrap(),
    )
    .encrypt_to_vec();
    assert_eq!(&ciphertext[..6], b"scrypt");
}

#[test]
fn encrypt_version() {
    let cipher = Encryptor::with_params(
        TEST_DATA,
        PASSPHRASE.as_bytes(),
        Params::from_cost(4, 10, 16).unwrap(),
    );
    let mut buf = [u8::default(); TEST_DATA.len() + HEADER_SIZE + TAG_SIZE];
    cipher.encrypt(&mut buf);
    assert_eq!(buf[6], 0);

    let ciphertext = Encryptor::with_params(
        TEST_DATA,
        PASSPHRASE.as_bytes(),
        Params::from_cost(10, 8, 1).unwrap(),
    )
    .encrypt_to_vec();
    assert_eq!(ciphertext[6], 0);
}

#[test]
fn encrypt_log_n() {
    let cipher = Encryptor::with_params(
        TEST_DATA,
        PASSPHRASE.as_bytes(),
        Params::from_cost(4, 10, 16).unwrap(),
    );
    let mut buf = [u8::default(); TEST_DATA.len() + HEADER_SIZE + TAG_SIZE];
    cipher.encrypt(&mut buf);
    assert_eq!(buf[7], 4);

    let ciphertext = Encryptor::with_params(
        TEST_DATA,
        PASSPHRASE.as_bytes(),
        Params::from_cost(10, 8, 1).unwrap(),
    )
    .encrypt_to_vec();
    assert_eq!(ciphertext[7], 10);
}

#[test]
fn encrypt_r() {
    let cipher = Encryptor::with_params(
        TEST_DATA,
        PASSPHRASE.as_bytes(),
        Params::from_cost(4, 10, 16).unwrap(),
    );
    let mut buf = [u8::default(); TEST_DATA.len() + HEADER_SIZE + TAG_SIZE];
    cipher.encrypt(&mut buf);
    assert_eq!(&buf[8..12], u32::to_be_bytes(10));

    let ciphertext = Encryptor::with_params(
        TEST_DATA,
        PASSPHRASE.as_bytes(),
        Params::from_cost(10, 8, 1).unwrap(),
    )
    .encrypt_to_vec();
    assert_eq!(&ciphertext[8..12], u32::to_be_bytes(8));
}

#[test]
fn encrypt_p() {
    let cipher = Encryptor::with_params(
        TEST_DATA,
        PASSPHRASE.as_bytes(),
        Params::from_cost(4, 10, 16).unwrap(),
    );
    let mut buf = [u8::default(); TEST_DATA.len() + HEADER_SIZE + TAG_SIZE];
    cipher.encrypt(&mut buf);
    assert_eq!(&buf[12..16], u32::to_be_bytes(16));

    let ciphertext = Encryptor::with_params(
        TEST_DATA,
        PASSPHRASE.as_bytes(),
        Params::from_cost(10, 8, 1).unwrap(),
    )
    .encrypt_to_vec();
    assert_eq!(&ciphertext[12..16], u32::to_be_bytes(1));
}

#[test]
fn encrypt_checksum() {
    let cipher = Encryptor::with_params(
        TEST_DATA,
        PASSPHRASE.as_bytes(),
        Params::from_cost(4, 10, 16).unwrap(),
    );
    let mut buf = [u8::default(); TEST_DATA.len() + HEADER_SIZE + TAG_SIZE];
    cipher.encrypt(&mut buf);
    let checksum = Sha256::digest(&buf[..48]);
    assert_eq!(&buf[48..64], &checksum[..16]);

    let ciphertext = Encryptor::with_params(
        TEST_DATA,
        PASSPHRASE.as_bytes(),
        Params::from_cost(10, 8, 1).unwrap(),
    )
    .encrypt_to_vec();
    let checksum = Sha256::digest(&ciphertext[..48]);
    assert_eq!(&ciphertext[48..64], &checksum[..16]);
}

#[test]
fn encrypt_out_len() {
    let cipher = Encryptor::with_params(
        TEST_DATA,
        PASSPHRASE.as_bytes(),
        Params::from_cost(4, 10, 16).unwrap(),
    );
    assert_eq!(cipher.out_len(), TEST_DATA.len() + HEADER_SIZE + TAG_SIZE);

    let cipher = Encryptor::with_params(
        TEST_DATA,
        PASSPHRASE.as_bytes(),
        Params::from_cost(10, 8, 1).unwrap(),
    );
    assert_eq!(cipher.out_len(), 142);
}

#[test]
fn success_convenience_function_with_params() {
    let ciphertext = scryptenc::encrypt_with_params(
        TEST_DATA,
        PASSPHRASE.as_bytes(),
        Params::from_cost(4, 10, 16).unwrap(),
    );
    assert_ne!(ciphertext, TEST_DATA);
    assert_eq!(ciphertext.len(), TEST_DATA.len() + HEADER_SIZE + TAG_SIZE);

    let params = scryptenc::Params::new(&ciphertext).unwrap();
    assert_eq!(params.log_n(), 4);
    assert_eq!(params.r(), 10);
    assert_eq!(params.p(), 16);

    let plaintext = scryptenc::decrypt(&ciphertext, PASSPHRASE.as_bytes()).unwrap();
    assert_eq!(plaintext, TEST_DATA);
}

/// Builds encrypted data by the rules of the format, with the
/// cryptographic crates alone.
fn reference_data(
    plaintext: &[u8],
    passphrase: &[u8],
    log_n: u8,
    r: u32,
    p: u32,
    salt: [u8; 32],
) -> Vec<u8> {
    let params = scrypt::Params::new(log_n, r, p, scrypt::Params::RECOMMENDED_LEN).unwrap();
    let mut dk = [0u8; 64];
    scrypt::scrypt(passphrase, &salt, &params, &mut dk).unwrap();

    let mut data = Vec::new();
    data.extend_from_slice(b"scrypt");
    data.push(0);
    data.push(log_n);
    data.extend_from_slice(&r.to_be_bytes());
    data.extend_from_slice(&p.to_be_bytes());
    data.extend_from_slice(&salt);
    let checksum = Sha256::digest(&data[..48]);
    data.extend_from_slice(&checksum[..16]);
    let mut mac = Hmac::<Sha256>::new_from_slice(&dk[32..]).unwrap();
    mac.update(&data[..64]);
    data.extend_from_slice(&mac.finalize().into_bytes());

    let mut body = plaintext.to_vec();
    let mut cipher = ctr::Ctr128BE::<aes::Aes256>::new(dk[..32].into(), &[0u8; 16].into());
    cipher.apply_keystream(&mut body);
    data.extend_from_slice(&body);
    let mut mac = Hmac::<Sha256>::new_from_slice(&dk[32..]).unwrap();
    mac.update(&data);
    data.extend_from_slice(&mac.finalize().into_bytes());
    data
}

#[test]
fn encrypt_with_a_given_salt_matches_the_format() {
    let mut salt = [0u8; 32];
    for (i, byte) in salt.iter_mut().enumerate() {
        *byte = u8::try_from(255 - i).unwrap();
    }
    let params = Params::from_cost(10, 8, 1).unwrap();
    let cipher = Encryptor::with_params_and_salt(TEST_DATA, b"password", params, salt);
    let expected = reference_data(TEST_DATA, b"password", 10, 8, 1, salt);
    assert_eq!(cipher.encrypt_to_vec(), expected);

    let mut buf = [0xffu8; 142];
    cipher.encrypt(&mut buf);
    assert_eq!(buf.as_slice(), expected);
    assert_eq!(cipher.clone().encrypt_to_vec(), expected);
}

#[test]
fn encrypt_hello_world_vector() {
    let plaintext = b"Hello, world!";
    let ciphertext = scryptenc::encrypt_with_params(
        plaintext,
        b"password",
        Params::from_cost(10, 8, 1).unwrap(),
    );
    assert_eq!(ciphertext.len(), 141);
    assert_eq!(&ciphertext[..6], b"scrypt");
    assert_eq!(ciphertext[6], 0);
    assert_eq!(ciphertext[7], 10);
    assert_eq!(u32::from_be_bytes(ciphertext[8..12].try_into().unwrap()), 8);
    assert_eq!(u32::from_be_bytes(ciphertext[12..16].try_into().unwrap()), 1);

    let params = scryptenc::Params::new(&ciphertext).unwrap();
    assert_eq!(
        (params.log_n(), params.n(), params.r(), params.p()),
        (10, 1024, 8, 1)
    );
    assert_eq!(
        scryptenc::decrypt(&ciphertext, b"password").unwrap(),
        plaintext
    );
}

#[test]
fn encrypt_empty_plaintext() {
    let params = Params::from_cost(4, 1, 1).unwrap();
    let cipher = Encryptor::with_params_and_salt(b"", b"", params, [0; 32]);
    assert_eq!(cipher.out_len(), 128);
    let ciphertext = cipher.encrypt_to_vec();
    assert_eq!(ciphertext, reference_data(b"", b"", 4, 1, 1, [0; 32]));
    assert_eq!(scryptenc::decrypt(&ciphertext, b"").unwrap(), b"");
}

#[test]
fn encrypt_long_plaintext_crosses_cipher_blocks() {
    let plaintext: Vec<u8> = (0..777u32).map(|i| (i % 253) as u8).collect();
    let params = Params::from_cost(5, 2, 3).unwrap();
    let cipher = Encryptor::with_params_and_salt(&plaintext, b"long", params, [0x42; 32]);
    assert_eq!(cipher.out_len(), 777 + 128);
    assert_eq!(
        cipher.encrypt_to_vec(),
        reference_data(&plaintext, b"long", 5, 2, 3, [0x42; 32])
    );
}

#[test]
fn encrypt_draws_a_fresh_salt() {
    let params = Params::from_cost(4, 1, 1).unwrap();
    let first = scryptenc::encrypt_with_params(TEST_DATA, b"key", params);
    let second = scryptenc::encrypt_with_params(TEST_DATA, b"key", params);
    assert_ne!(first[16..48], second[16..48]);
    assert_ne!(first, second);
    assert_eq!(scryptenc::decrypt(&first, b"key").unwrap(), TEST_DATA);
    assert_eq!(scryptenc::decrypt(&second, b"key").unwrap(), TEST_DATA);
}

#[test]
fn encrypt_header_mac_and_body_mac() {
    let salt = [0x33; 32];
    let params = Params::from_cost(4, 1, 1).unwrap();
    let ciphertext =
        Encryptor::with_params_and_salt(TEST_DATA, b"key", params, salt).encrypt_to_vec();

    let scrypt_params = scrypt::Params::new(4, 1, 1, 32).unwrap();
    let mut dk = [0u8; 64];
    scrypt::scrypt(b"key", &salt, &scrypt_params, &mut dk).unwrap();

    let mut mac = Hmac::<Sha256>::new_from_slice(&dk[32..]).unwrap();
    mac.update(&ciphertext[..64]);
    assert_eq!(&ciphertext[64..96], mac.finalize().into_bytes().as_slice());

    let end = ciphertext.len() - 32;
    let mut mac = Hmac::<Sha256>::new_from_slice(&dk[32..]).unwrap();
    mac.update(&ciphertext[..end]);
    assert_eq!(&ciphertext[end..], mac.finalize().into_bytes().as_slice());
    assert_eq!(&ciphertext[16..48], salt);
}
