//! Error types for this crate.

use crate::primitives::invalid_params_message;
use hmac::digest::MacError;
use scrypt::errors::InvalidParams;
use vstd::prelude::*;
use vstd::std_specs::convert::FromSpecImpl;
use vstd::string::StringExecFns;

verus! {

/// The error type for the scrypt encrypted data format.
#[derive(Clone, Copy, Debug, Eq, PartialEq)]
pub enum Error {
    /// The encrypted data was shorter than 128 bytes.
    InvalidLength,
    /// The magic number (file signature) was invalid.
    InvalidMagicNumber,
    /// The version was the unrecognized scrypt version number.
    UnknownVersion(u8),
    /// The scrypt parameters were invalid.
    InvalidParams(InvalidParams),
    /// The checksum of the header mismatched.
    InvalidChecksum,
    /// The MAC (authentication tag) of the header was invalid.
    InvalidHeaderMac(MacError),
    /// The MAC (authentication tag) of the scrypt encrypted data format was
    /// invalid.
    InvalidMac(MacError),
}

/// A specialized [`Result`](core::result::Result) type for read and write
/// operations for the scrypt encrypted data format.
pub type Result<T> = core::result::Result<T, Error>;

/// What an [`Error`] says, without the values that the cryptographic crates
/// attach to it. This is the view of an `Error` in contracts.
#[derive(Clone, Copy, Debug, PartialEq, Eq, Structural)]
pub enum ErrorKind {
    /// The encrypted data was shorter than 128 bytes.
    InvalidLength,
    /// The magic number (file signature) was invalid.
    InvalidMagicNumber,
    /// The version was the unrecognized scrypt version number.
    UnknownVersion(u8),
    /// The scrypt parameters were invalid.
    InvalidParams,
    /// The checksum of the header mismatched.
    InvalidChecksum,
    /// The MAC (authentication tag) of the header was invalid.
    InvalidHeaderMac,
    /// The MAC (authentication tag) of the scrypt encrypted data format was
    /// invalid.
    InvalidMac,
}

impl View for Error {
    type V = ErrorKind;

    open spec fn view(&self) -> ErrorKind {
        match *self {
            Error::InvalidLength => ErrorKind::InvalidLength,
            Error::InvalidMagicNumber => ErrorKind::InvalidMagicNumber,
            Error::UnknownVersion(version) => ErrorKind::UnknownVersion(version),
            Error::InvalidParams(_) => ErrorKind::InvalidParams,
            Error::InvalidChecksum => ErrorKind::InvalidChecksum,
            Error::InvalidHeaderMac(_) => ErrorKind::InvalidHeaderMac,
            Error::InvalidMac(_) => ErrorKind::InvalidMac,
        }
    }
}

/// The character of the decimal digit `d`.
pub open spec fn digit_char(d: u8) -> char {
    if d == 0 {
        '0'
    } else if d == 1 {
        '1'
    } else if d == 2 {
        '2'
    } else if d == 3 {
        '3'
    } else if d == 4 {
        '4'
    } else if d == 5 {
        '5'
    } else if d == 6 {
        '6'
    } else if d == 7 {
        '7'
    } else if d == 8 {
        '8'
    } else {
        '9'
    }
}

/// The decimal notation of `n`, without leading zeros.
pub open spec fn decimal(n: u8) -> Seq<char> {
    if n >= 100 {
        seq![digit_char(n / 100), digit_char(n / 10 % 10), digit_char(n % 10)]
    } else if n >= 10 {
        seq![digit_char(n / 10), digit_char(n % 10)]
    } else {
        seq![digit_char(n)]
    }
}

impl ErrorKind {
    /// The sentence that describes this error.
    pub open spec fn message(self) -> Seq<char> {
        match self {
            ErrorKind::InvalidLength => "encrypted data is shorter than 128 bytes"@,
            ErrorKind::InvalidMagicNumber => "invalid magic number"@,
            ErrorKind::UnknownVersion(version) => "unknown version number `"@ + decimal(version)
                + "`"@,
            ErrorKind::InvalidParams => "invalid scrypt parameters"@,
            ErrorKind::InvalidChecksum => "checksum mismatch"@,
            ErrorKind::InvalidHeaderMac => "invalid header MAC"@,
            ErrorKind::InvalidMac => "invalid MAC"@,
        }
    }
}

/// Appends the character of the decimal digit `d` to `text`.
fn push_digit(text: &mut String, d: u8)
    requires
        d < 10,
    ensures
        final(text)@ == old(text)@.push(digit_char(d)),
{
    proof {
        reveal_strlit("0");
        reveal_strlit("1");
        reveal_strlit("2");
        reveal_strlit("3");
        reveal_strlit("4");
        reveal_strlit("5");
        reveal_strlit("6");
        reveal_strlit("7");
        reveal_strlit("8");
        reveal_strlit("9");
    }
    let digit = if d == 0 {
        "0"
    } else if d == 1 {
        "1"
    } else if d == 2 {
        "2"
    } else if d == 3 {
        "3"
    } else if d == 4 {
        "4"
    } else if d == 5 {
        "5"
    } else if d == 6 {
        "6"
    } else if d == 7 {
        "7"
    } else if d == 8 {
        "8"
    } else {
        "9"
    };
    text.append(digit);
}

/// Appends the decimal notation of `n` to `text`.
fn push_decimal(text: &mut String, n: u8)
    ensures
        final(text)@ == old(text)@ + decimal(n),
{
    if n >= 100 {
        push_digit(text, n / 100);
    }
    if n >= 10 {
        push_digit(text, n / 10 % 10);
    }
    push_digit(text, n % 10);
}

impl Error {
    /// Returns what this error says, without the attached value.
    pub fn kind(&self) -> (kind: ErrorKind)
        ensures
            kind == self@,
    {
        match self {
            Error::InvalidLength => ErrorKind::InvalidLength,
            Error::InvalidMagicNumber => ErrorKind::InvalidMagicNumber,
            Error::UnknownVersion(version) => ErrorKind::UnknownVersion(*version),
            Error::InvalidParams(_) => ErrorKind::InvalidParams,
            Error::InvalidChecksum => ErrorKind::InvalidChecksum,
            Error::InvalidHeaderMac(_) => ErrorKind::InvalidHeaderMac,
            Error::InvalidMac(_) => ErrorKind::InvalidMac,
        }
    }

    /// Returns the sentence that describes this error.
    pub fn to_string(&self) -> (text: String)
        ensures
            text@ == self@.message(),
    {
        match self {
            Error::InvalidLength => String::from_str("encrypted data is shorter than 128 bytes"),
            Error::InvalidMagicNumber => String::from_str("invalid magic number"),
            Error::UnknownVersion(version) => {
                let mut text = String::from_str("unknown version number `");
                push_decimal(&mut text, *version);
                text.append("`");
                text
            },
            Error::InvalidParams(err) => invalid_params_message(err),
            Error::InvalidChecksum => String::from_str("checksum mismatch"),
            Error::InvalidHeaderMac(_) => String::from_str("invalid header MAC"),
            Error::InvalidMac(_) => String::from_str("invalid MAC"),
        }
    }
}

impl From<InvalidParams> for Error {
    fn from(err: InvalidParams) -> (error: Error) {
        Error::InvalidParams(err)
    }
}

impl FromSpecImpl<InvalidParams> for Error {
    open spec fn obeys_from_spec() -> bool {
        true
    }

    open spec fn from_spec(err: InvalidParams) -> Error {
        Error::InvalidParams(err)
    }
}

} // verus!
