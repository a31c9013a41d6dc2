//! Error taxonomy of the matching protocol. Every failure is surfaced
//! synchronously at the call whose contract was violated; none is retried.

use vstd::prelude::*;

verus! {

/// A typed failure of the matching protocol.
#[derive(Clone, Copy, Debug, PartialEq, Eq, Structural)]
pub enum MatchError {
    /// Raw attributes cannot be represented within the profile width.
    Encoding,
    /// Key material is malformed or does not fit the requested width.
    Key,
    /// The two operands of a metric do not share one width.
    WidthMismatch,
    /// The evaluation key does not belong to the ciphertext's key pair.
    KeyMismatch,
    /// The ciphertext does not fit the decryption key's parameters or pair.
    Decryption,
}

impl MatchError {
    /// Short human-readable name of the failure.
    pub fn describe(&self) -> (r: &'static str)
        ensures
            r@.len() > 0,
    {
        let s: &'static str = match self {
            MatchError::Encoding => "encoding error",
            MatchError::Key => "key error",
            MatchError::WidthMismatch => "width mismatch error",
            MatchError::KeyMismatch => "key mismatch error",
            MatchError::Decryption => "decryption error",
        };
        proof {
            reveal_strlit("encoding error");
            reveal_strlit("key error");
            reveal_strlit("width mismatch error");
            reveal_strlit("key mismatch error");
            reveal_strlit("decryption error");
        }
        s
    }
}

} // verus!
