//! The scrypt parameters.

use crate::error::{Error, ErrorKind};
use crate::format::{parse_header, Header, HeaderView};
use crate::primitives::{scrypt_check, scrypt_recommended, valid_cost};
use vstd::arithmetic::power2::{lemma2_to64, lemma_pow2_pos, pow2};
use vstd::bits::lemma_u64_shl_is_mul;
use vstd::prelude::*;

verus! {

/// The cost of a key derivation: the view of [`Params`] in contracts.
pub struct Cost {
    /// log<sub>2</sub> of the scrypt parameter `N`.
    pub log_n: u8,
    /// The scrypt parameter `r`.
    pub r: u32,
    /// The scrypt parameter `p`.
    pub p: u32,
}

impl Cost {
    /// Whether scrypt accepts this cost.
    pub open spec fn valid(self) -> bool {
        valid_cost(self.log_n, self.r, self.p)
    }
}

/// The cost that scrypt recommends, sufficient for most use-cases:
/// `N = 2^17`, `r = 8`, `p = 1`.
pub open spec fn recommended_cost() -> Cost {
    Cost { log_n: 17, r: 8, p: 1 }
}

/// The scrypt parameters used for the encrypted data.
///
/// Every value of this type holds a cost that scrypt accepts.
#[derive(Clone, Copy, Debug)]
pub struct Params {
    log_n: u8,
    r: u32,
    p: u32,
}

impl View for Params {
    type V = Cost;

    closed spec fn view(&self) -> Cost {
        Cost { log_n: self.log_n, r: self.r, p: self.p }
    }
}

impl Params {
    /// What holds of every value of this type.
    #[verifier::type_invariant]
    pub open spec fn accepted(self) -> bool {
        self@.valid()
    }

    /// Creates a new instance of the scrypt parameters from `ciphertext`.
    ///
    /// Only the start of the header is read: the checksum and the MACs are
    /// not verified, so success does not show that `ciphertext` is
    /// authentic.
    ///
    /// # Errors
    ///
    /// Returns [`Err`] if any of the following are true:
    ///
    /// - `ciphertext` is shorter than 128 bytes.
    /// - The magic number is invalid.
    /// - The version number is the unrecognized scrypt version number.
    /// - The scrypt parameters are invalid.
    pub fn new(ciphertext: &[u8]) -> (res: Result<Self, Error>)
        ensures
            match res {
                Ok(params) => parse_header(ciphertext@) matches Ok(header) && header.cost
                    == params@,
                Err(err) => parse_header(ciphertext@) == Err::<HeaderView, ErrorKind>(err@),
            },
            ciphertext@.len() < 128 ==> res matches Err(Error::InvalidLength),
    {
        match Header::parse(ciphertext) {
            Ok(header) => Ok(header.params()),
            Err(err) => Err(err),
        }
    }

    /// Creates the scrypt parameters with the given cost.
    ///
    /// # Errors
    ///
    /// Returns [`Error::InvalidParams`] if scrypt does not accept the cost.
    pub fn from_cost(log_n: u8, r: u32, p: u32) -> (res: Result<Self, Error>)
        ensures
            res is Ok <==> valid_cost(log_n, r, p),
            res matches Ok(params) ==> params@ == (Cost { log_n, r, p }),
            res matches Err(err) ==> err@ == ErrorKind::InvalidParams,
    {
        match scrypt_check(log_n, r, p) {
            Ok(()) => Ok(Params { log_n, r, p }),
            Err(err) => Err(Error::InvalidParams(err)),
        }
    }

    /// Creates the scrypt parameters that scrypt recommends, which are
    /// sufficient for most use-cases: `N = 2^17`, `r = 8`, `p = 1`.
    pub fn recommended() -> (params: Self)
        ensures
            params@ == recommended_cost(),
            params@.valid(),
    {
        let (log_n, r, p) = scrypt_recommended();
        proof {
            lemma2_to64();
        }
        Params { log_n, r, p }
    }

    /// Gets log<sub>2</sub> of the scrypt parameter `N`.
    pub fn log_n(&self) -> (log_n: u8)
        ensures
            log_n == self@.log_n,
            self@.valid(),
    {
        proof {
            use_type_invariant(self);
        }
        self.log_n
    }

    /// Gets `N` parameter.
    pub fn n(&self) -> (n: u64)
        ensures
            n == pow2(self@.log_n as nat),
    {
        proof {
            use_type_invariant(self);
            lemma_pow2_pos(self.log_n as nat);
            assert(pow2(self.log_n as nat) <= usize::MAX) by (nonlinear_arith)
                requires
                    128 * self.r * pow2(self.log_n as nat) <= usize::MAX,
                    self.r > 0,
                    pow2(self.log_n as nat) > 0,
            ;
            lemma_u64_shl_is_mul(1, self.log_n as u64);
        }
        1u64 << (self.log_n as u64)
    }

    /// Gets `r` parameter.
    pub fn r(&self) -> (r: u32)
        ensures
            r == self@.r,
    {
        self.r
    }

    /// Gets `p` parameter.
    pub fn p(&self) -> (p: u32)
        ensures
            p == self@.p,
    {
        self.p
    }
}

} // verus!
