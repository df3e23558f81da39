//! An implementation of the scrypt encrypted data format.
//!
//! Given a passphrase and a plaintext, [`encrypt`] produces one block of
//! bytes that holds the scrypt parameters, a salt, a checksum, the
//! ciphertext and two authentication tags. [`decrypt`] recovers the
//! plaintext from it with the passphrase alone, and [`Params::new`] reads
//! the parameters without a passphrase.
//!
//! The layout of the bytes is stated in [`format`], what encryption writes in
//! [`encrypt`](mod@encrypt), what decryption accepts in
//! [`decrypt`](mod@decrypt), and what holds of the three together in
//! [`guarantees`]. The hash, the MAC, the cipher and the key derivation come
//! from other crates; [`primitives`] records what is taken on trust of them.

pub mod bytes;
pub mod decrypt;
pub mod encrypt;
pub mod error;
pub mod format;
pub mod guarantees;
pub mod params;
pub mod primitives;

pub use hmac;
pub use scrypt;

pub use crate::decrypt::{decrypt, Decryptor};
pub use crate::encrypt::{encrypt, encrypt_with_params, Encryptor};
pub use crate::error::{Error, ErrorKind, Result};
pub use crate::format::{HEADER_SIZE, TAG_SIZE};
pub use crate::params::Params;
