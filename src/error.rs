//! The failures a transfer can end with.
use vstd::prelude::*;

verus! {

#[derive(Clone, Debug)]
pub enum TransferError {
    /// A local filesystem operation failed.
    Io(String),
    /// The transport failed.
    Network(String),
    /// The remote endpoint answered with a non-success status.
    HttpStatus(u16),
    /// A freshly downloaded file does not carry the expected digest.
    DigestMismatch { expected: String, actual: String },
    /// The source could be opened neither directly nor through scoped access.
    ResourceOpen(String),
}

pub open spec fn mismatch_text(expected: Seq<char>, actual: Seq<char>) -> Seq<char> {
    "MD5 mismatch: expected "@ + expected + ", got "@ + actual
}

/// The human-readable text of a digest mismatch.
pub fn mismatch_message(expected: &str, actual: &str) -> (r: String)
    ensures
        r@ == mismatch_text(expected@, actual@),
{
    let mut r = String::from_str("MD5 mismatch: expected ");
    r.append(expected);
    r.append(", got ");
    r.append(actual);
    r
}

} // verus!
