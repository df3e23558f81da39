//! Specifications of the scrypt encrypted data format.

use crate::bytes::{
    bytes_equal, lemma_array_equality, lemma_u32_bytes_round_trip, lemma_u32_value_round_trip,
    read_array, read_u32_be, u32_from_be_bytes, u32_to_be_bytes, write_bytes, write_u32_be,
};
use crate::error::{Error, ErrorKind};
use crate::params::{Cost, Params};
use crate::primitives::{
    hmac_sha256, hmac_sha256_tag, hmac_sha256_verify, random_salt, sha256, sha256_digest,
};
use vstd::prelude::*;
use vstd::std_specs::convert::FromSpecImpl;

verus! {

/// The number of bytes of the header.
pub const HEADER_SIZE: usize = 96;

/// The number of bytes of the MAC (authentication tag) of the scrypt encrypted
/// data format.
pub const TAG_SIZE: usize = 32;

/// Version of the scrypt encrypted data format.
#[derive(Clone, Copy, Debug, Default, Eq, PartialEq)]
pub enum Version {
    /// Version 0.
    #[default]
    V0,
    /// Version 1.
    _V1,
}

impl From<Version> for u8 {
    fn from(version: Version) -> (byte: u8) {
        match version {
            Version::V0 => 0,
            Version::_V1 => 1,
        }
    }
}

impl FromSpecImpl<Version> for u8 {
    open spec fn obeys_from_spec() -> bool {
        true
    }

    open spec fn from_spec(version: Version) -> u8 {
        match version {
            Version::V0 => 0,
            Version::_V1 => 1,
        }
    }
}

/// The magic number of the format: the ASCII code for "scrypt".
pub open spec fn magic_number() -> Seq<u8> {
    seq![0x73u8, 0x63u8, 0x72u8, 0x79u8, 0x70u8, 0x74u8]
}

/// The checksum of the header fields `fields`: the first 16 bytes of their
/// SHA-256 digest.
pub open spec fn checksum_of(fields: Seq<u8>) -> Seq<u8> {
    sha256_digest(fields)@.subrange(0, 16)
}

/// `len` zero bytes.
pub open spec fn zeros(len: nat) -> Seq<u8> {
    Seq::new(len, |i: int| 0u8)
}

/// What a [`Header`] holds: its view in contracts. The magic number and the
/// version are the same in every header, so they are not part of it.
pub struct HeaderView {
    /// The scrypt parameters.
    pub cost: Cost,
    /// The salt, 32 bytes.
    pub salt: Seq<u8>,
    /// The checksum, 16 bytes.
    pub checksum: Seq<u8>,
    /// The header MAC, 32 bytes.
    pub mac: Seq<u8>,
}

impl HeaderView {
    /// The first 48 bytes of the header on the wire, which the checksum
    /// covers: magic number, version, parameters and salt.
    pub open spec fn fields(self) -> Seq<u8> {
        magic_number() + seq![0u8, self.cost.log_n] + u32_to_be_bytes(self.cost.r)
            + u32_to_be_bytes(self.cost.p) + self.salt
    }

    /// The first 64 bytes of the header on the wire, which the header MAC
    /// covers: the fields and the checksum.
    pub open spec fn signed(self) -> Seq<u8> {
        self.fields() + self.checksum
    }

    /// The 96 bytes of the header on the wire.
    pub open spec fn bytes(self) -> Seq<u8> {
        self.signed() + self.mac
    }

    /// Whether the parts have the lengths of the wire format and the cost is
    /// one that scrypt accepts.
    pub open spec fn well_formed(self) -> bool {
        &&& self.cost.valid()
        &&& self.salt.len() == 32
        &&& self.checksum.len() == 16
        &&& self.mac.len() == 32
    }

    /// This header with another checksum.
    pub open spec fn with_checksum(self, checksum: Seq<u8>) -> HeaderView {
        HeaderView { checksum, ..self }
    }

    /// This header with another MAC.
    pub open spec fn with_mac(self, mac: Seq<u8>) -> HeaderView {
        HeaderView { mac, ..self }
    }
}

/// What parsing the start of `data` as a header gives: the header, or the
/// first reason to reject `data`.
///
/// The checks come in the order of the wire format: the length of the whole
/// of `data`, the magic number, the version, the parameters. The checksum and
/// the MAC are read and not verified.
pub open spec fn parse_header(data: Seq<u8>) -> Result<HeaderView, ErrorKind> {
    if data.len() < 128 {
        Err(ErrorKind::InvalidLength)
    } else if data.subrange(0, 6) != magic_number() {
        Err(ErrorKind::InvalidMagicNumber)
    } else if data[6] != 0 {
        Err(ErrorKind::UnknownVersion(data[6]))
    } else {
        let cost = Cost {
            log_n: data[7],
            r: u32_from_be_bytes(data.subrange(8, 12)),
            p: u32_from_be_bytes(data.subrange(12, 16)),
        };
        if !cost.valid() {
            Err(ErrorKind::InvalidParams)
        } else {
            Ok(
                HeaderView {
                    cost,
                    salt: data.subrange(16, 48),
                    checksum: data.subrange(48, 64),
                    mac: data.subrange(64, 96),
                },
            )
        }
    }
}

/// A header that parsing accepts is well formed, and its bytes are the first
/// 96 bytes of what was parsed.
pub proof fn lemma_parsed_header_is_prefix(data: Seq<u8>)
    requires
        parse_header(data) is Ok,
    ensures
        parse_header(data)->Ok_0.well_formed(),
        parse_header(data)->Ok_0.fields() == data.subrange(0, 48),
        parse_header(data)->Ok_0.signed() == data.subrange(0, 64),
        parse_header(data)->Ok_0.bytes() == data.subrange(0, 96),
{
    let header = parse_header(data)->Ok_0;
    lemma_u32_bytes_round_trip(data.subrange(8, 12));
    lemma_u32_bytes_round_trip(data.subrange(12, 16));
    assert(header.fields() =~= data.subrange(0, 48));
}

/// Parsing the bytes of a well-formed header, followed by at least 32 more
/// bytes, gives the header back.
pub proof fn lemma_header_bytes_parse(header: HeaderView, rest: Seq<u8>)
    requires
        header.well_formed(),
        rest.len() >= 32,
    ensures
        header.fields().len() == 48,
        header.signed().len() == 64,
        header.bytes().len() == 96,
        parse_header(header.bytes() + rest) == Ok::<HeaderView, ErrorKind>(header),
{
    let data = header.bytes() + rest;
    lemma_u32_value_round_trip(header.cost.r);
    lemma_u32_value_round_trip(header.cost.p);
    assert(data.subrange(0, 6) =~= magic_number());
    assert(data.subrange(8, 12) =~= u32_to_be_bytes(header.cost.r));
    assert(data.subrange(12, 16) =~= u32_to_be_bytes(header.cost.p));
    assert(data.subrange(16, 48) =~= header.salt);
    assert(data.subrange(48, 64) =~= header.checksum);
    assert(data.subrange(64, 96) =~= header.mac);
}

/// Header of the scrypt encrypted data format.
#[derive(Debug)]
pub struct Header {
    magic_number: [u8; 6],
    version: Version,
    params: Params,
    salt: [u8; 32],
    checksum: [u8; 16],
    mac: [u8; 32],
}

impl View for Header {
    type V = HeaderView;

    closed spec fn view(&self) -> HeaderView {
        HeaderView {
            cost: self.params@,
            salt: self.salt@,
            checksum: self.checksum@,
            mac: self.mac@,
        }
    }
}

impl Clone for Header {
    fn clone(&self) -> (header: Self)
        ensures
            header == *self,
    {
        proof {
            use_type_invariant(self);
        }
        Self {
            magic_number: self.magic_number,
            version: self.version,
            params: self.params,
            salt: self.salt,
            checksum: self.checksum,
            mac: self.mac,
        }
    }
}

impl Header {
    /// Magic number of the scrypt encrypted data format.
    ///
    /// This is the ASCII code for "scrypt".
    pub const MAGIC_NUMBER: [u8; 6] = [0x73, 0x63, 0x72, 0x79, 0x70, 0x74];

    /// The number of bytes of the header.
    pub const SIZE: usize = 96;

    #[verifier::type_invariant]
    spec fn tagged(self) -> bool {
        &&& self.magic_number@ == magic_number()
        &&& self.version == Version::V0
    }

    /// Creates a new `Header` with a fresh random salt. The checksum and the
    /// MAC are zero until they are computed.
    pub fn new(params: Params) -> (header: Self)
        ensures
            header@.cost == params@,
            header@.checksum == zeros(16),
            header@.mac == zeros(32),
            header@.well_formed(),
    {
        let salt = random_salt();
        Self::with_salt(params, salt)
    }

    /// Creates a new `Header` with the given salt. The checksum and the MAC
    /// are zero until they are computed.
    pub fn with_salt(params: Params, salt: [u8; 32]) -> (header: Self)
        ensures
            header@ == (HeaderView {
                cost: params@,
                salt: salt@,
                checksum: zeros(16),
                mac: zeros(32),
            }),
            header@.well_formed(),
    {
        let magic_number = Self::MAGIC_NUMBER;
        let version = Version::V0;
        let checksum = [0u8; 16];
        let mac = [0u8; 32];
        proof {
            use_type_invariant(&params);
            assert(checksum@ =~= zeros(16));
            assert(mac@ =~= zeros(32));
        }
        Self { magic_number, version, params, salt, checksum, mac }
    }

    /// Parses `data` into the header.
    ///
    /// The checksum and the MAC are taken from `data` as they stand: they
    /// are not verified.
    ///
    /// # Errors
    ///
    /// Returns [`Err`] if any of the following are true:
    ///
    /// - `data` is shorter than 128 bytes.
    /// - The magic number is invalid.
    /// - The version number is the unrecognized scrypt version number.
    /// - The scrypt parameters are invalid.
    pub fn parse(data: &[u8]) -> (res: Result<Self, Error>)
        ensures
            match res {
                Ok(header) => parse_header(data@) == Ok::<HeaderView, ErrorKind>(header@),
                Err(err) => parse_header(data@) == Err::<HeaderView, ErrorKind>(err@),
            },
            data@.len() < 128 ==> res matches Err(Error::InvalidLength),
    {
        if data.len() < Self::SIZE + TAG_SIZE {
            return Err(Error::InvalidLength);
        }
        let magic_number = Self::MAGIC_NUMBER;
        if !bytes_equal(&data[0..6], &magic_number) {
            return Err(Error::InvalidMagicNumber);
        }
        let version = match data[6] {
            0 => Version::V0,
            v => return Err(Error::UnknownVersion(v)),
        };
        let log_n = data[7];
        let r = read_u32_be(data, 8);
        let p = read_u32_be(data, 12);
        let params = match Params::from_cost(log_n, r, p) {
            Ok(params) => params,
            Err(err) => return Err(err),
        };
        let salt: [u8; 32] = read_array(data, 16);
        let checksum: [u8; 16] = read_array(data, 48);
        let mac: [u8; 32] = read_array(data, 64);
        Ok(Self { magic_number, version, params, salt, checksum, mac })
    }

    /// Computes the checksum of this header, the first 16 bytes of the
    /// SHA-256 digest of its first 48 bytes, and stores it.
    pub fn compute_checksum(&mut self)
        ensures
            final(self)@ == old(self)@.with_checksum(checksum_of(old(self)@.fields())),
    {
        let bytes = self.as_bytes();
        let digest = sha256(&bytes[0..48]);
        proof {
            use_type_invariant(&*self);
            assert(bytes@.subrange(0, 48) =~= self@.fields());
        }
        self.checksum = read_array(&digest, 0);
    }

    /// Computes the checksum of this header, stores it, and compares it with
    /// `checksum`.
    ///
    /// # Errors
    ///
    /// Returns [`Error::InvalidChecksum`] if the two differ.
    pub fn verify_checksum(&mut self, checksum: &[u8]) -> (res: Result<(), Error>)
        ensures
            final(self)@ == old(self)@.with_checksum(checksum_of(old(self)@.fields())),
            res is Ok <==> checksum@ == checksum_of(old(self)@.fields()),
            res matches Err(err) ==> err@ == ErrorKind::InvalidChecksum,
    {
        self.compute_checksum();
        if bytes_equal(&self.checksum, checksum) {
            Ok(())
        } else {
            Err(Error::InvalidChecksum)
        }
    }

    /// Computes the HMAC-SHA-256 of the first 64 bytes of this header under
    /// `key`, and stores it.
    pub fn compute_mac(&mut self, key: &[u8; 32])
        ensures
            final(self)@ == old(self)@.with_mac(hmac_sha256_tag(key@, old(self)@.signed())@),
    {
        let bytes = self.as_bytes();
        let tag = hmac_sha256(key, &bytes[0..64]);
        proof {
            use_type_invariant(&*self);
            assert(bytes@.subrange(0, 64) =~= self@.signed());
        }
        self.mac = tag;
    }

    /// Verifies that `tag` is the HMAC-SHA-256 of the first 64 bytes of this
    /// header under `key`, and stores `tag` if it is.
    ///
    /// # Errors
    ///
    /// Returns [`Error::InvalidHeaderMac`] if `tag` is another value; the
    /// header is then left as it was.
    pub fn verify_mac(&mut self, key: &[u8; 32], tag: &[u8; 32]) -> (res: Result<(), Error>)
        ensures
            res is Ok <==> tag@ == hmac_sha256_tag(key@, old(self)@.signed())@,
            res is Ok ==> final(self)@ == old(self)@.with_mac(tag@),
            res matches Err(err) ==> err@ == ErrorKind::InvalidHeaderMac && final(self)@ == old(
                self,
            )@,
    {
        let bytes = self.as_bytes();
        proof {
            use_type_invariant(&*self);
            assert(bytes@.subrange(0, 64) =~= self@.signed());
            lemma_array_equality(hmac_sha256_tag(key@, self@.signed()), *tag);
        }
        match hmac_sha256_verify(key, &bytes[0..64], tag) {
            Ok(()) => {
                self.mac = *tag;
                Ok(())
            },
            Err(err) => Err(Error::InvalidHeaderMac(err)),
        }
    }

    /// Converts this header to a byte array.
    pub fn as_bytes(&self) -> (bytes: [u8; 96])
        ensures
            bytes@ == self@.bytes(),
    {
        proof {
            use_type_invariant(self);
        }
        let mut header = [0u8; 96];
        write_bytes(&mut header, 0, &self.magic_number);
        header[6] = u8::from(self.version);
        header[7] = self.params.log_n();
        write_u32_be(&mut header, 8, self.params.r());
        write_u32_be(&mut header, 12, self.params.p());
        write_bytes(&mut header, 16, &self.salt);
        write_bytes(&mut header, 48, &self.checksum);
        write_bytes(&mut header, 64, &self.mac);
        header
    }

    /// Returns the scrypt parameters stored in this header.
    pub fn params(&self) -> (params: Params)
        ensures
            params@ == self@.cost,
    {
        self.params
    }

    /// Returns a salt stored in this header.
    pub fn salt(&self) -> (salt: [u8; 32])
        ensures
            salt@ == self@.salt,
    {
        self.salt
    }
}

/// Derived key.
#[derive(Debug)]
pub struct DerivedKey {
    encrypt: [u8; 32],
    mac: [u8; 32],
}

impl Clone for DerivedKey {
    fn clone(&self) -> (key: Self)
        ensures
            key == *self,
    {
        Self { encrypt: self.encrypt, mac: self.mac }
    }
}

impl View for DerivedKey {
    type V = Seq<u8>;

    closed spec fn view(&self) -> Seq<u8> {
        self.encrypt@ + self.mac@
    }
}

/// The half of the derived key `key` that keys AES-256-CTR: its first 32
/// bytes.
pub open spec fn cipher_key(key: Seq<u8>) -> Seq<u8> {
    key.subrange(0, 32)
}

/// The half of the derived key `key` that keys HMAC-SHA-256: its last 32
/// bytes.
pub open spec fn mac_key(key: Seq<u8>) -> Seq<u8> {
    key.subrange(32, 64)
}

impl DerivedKey {
    /// The number of bytes of the derived key.
    pub const SIZE: usize = 64;

    /// Creates a new `DerivedKey`.
    pub fn new(dk: [u8; 64]) -> (key: Self)
        ensures
            key@ == dk@,
    {
        let encrypt: [u8; 32] = read_array(&dk, 0);
        let mac: [u8; 32] = read_array(&dk, 32);
        Self { encrypt, mac }
    }

    /// Returns the key for encrypted.
    pub fn encrypt(&self) -> (key: [u8; 32])
        ensures
            key@ == cipher_key(self@),
            self@.len() == 64,
    {
        self.encrypt
    }

    /// Returns the key for a MAC.
    pub fn mac(&self) -> (key: [u8; 32])
        ensures
            key@ == mac_key(self@),
            self@.len() == 64,
    {
        self.mac
    }
}

} // verus!
