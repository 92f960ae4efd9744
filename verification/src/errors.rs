use vstd::prelude::*;
use vstd::string::StringExecFns;

verus! {

/// Why the validation of the secret store failed at startup. Each mode has
/// its own error; the service must not start once one of them came up.
#[derive(Copy, Clone, Debug, PartialEq, Eq, Structural)]
pub enum Error {
    /// Under `Mode0`: `secret` is missing or is not exactly 32 bytes long.
    BadSecretFileMode0,
    /// Under `Mode16`: `0000` is missing or is not exactly 2,097,152 bytes
    /// long.
    BadSecretFileMode16,
    /// Under `Mode32`: a shard file is missing or is not exactly 2,097,152
    /// bytes long.
    BadSecretFileMode32,
}

/// Why a secret could not be read while a request was served.
#[derive(Copy, Clone, Debug, PartialEq, Eq, Structural)]
pub enum SecretReadError {
    /// The file that should hold the secret does not exist.
    Missing,
    /// The file exists, but opening, seeking or reading it failed.
    Unreadable,
    /// The file ends before the last byte of the secret.
    Truncated,
}

/// Why a payload could not be signed.
#[derive(Copy, Clone, Debug, PartialEq, Eq, Structural)]
pub enum SigningError {
    /// The secret that the payload selects could not be read.
    SecretRead(SecretReadError),
}

impl Error {
    /// The error's name, which is also its message.
    pub open spec fn name(self) -> Seq<char> {
        match self {
            Error::BadSecretFileMode0 => "BadSecretFileMode0"@,
            Error::BadSecretFileMode16 => "BadSecretFileMode16"@,
            Error::BadSecretFileMode32 => "BadSecretFileMode32"@,
        }
    }

    /// The error's message: its name.
    pub fn to_string(&self) -> (message: String)
        ensures
            message@ == self.name(),
    {
        match self {
            Error::BadSecretFileMode0 => String::from_str("BadSecretFileMode0"),
            Error::BadSecretFileMode16 => String::from_str("BadSecretFileMode16"),
            Error::BadSecretFileMode32 => String::from_str("BadSecretFileMode32"),
        }
    }
}

} // verus!
