use vstd::prelude::*;

verus! {

/// What can go wrong while a key or a sealed value is read.
#[derive(Clone, Copy, Debug, PartialEq, Eq, Structural)]
pub enum Error {
    /// The text is not hexadecimal: its length is odd, or one of its
    /// characters is not a hexadecimal digit.
    InvalidHex,
    /// The text is hexadecimal, but stands for this many bytes, which is not
    /// the size of a secret key.
    InvalidKeyLength(usize),
    /// The sealed value does not open under the key pair.
    AuthenticationFailure,
    /// The sealed value opened, but what it held is not UTF-8 text.
    InvalidUtf8,
}

} // verus!
