use vstd::prelude::*;

use crate::error::Error;

verus! {

/// Number of bytes in a public key.
pub const PUBLIC_KEY_BYTES: usize = 32;

/// Number of bytes in a secret key.
pub const SECRET_KEY_BYTES: usize = 32;

/// Number of bytes by which a sealed value is longer than what it holds: the
/// sender's one-time public key and the authentication tag.
pub const SEAL_BYTES: usize = 48;

/// The public key that belongs to a secret key: what
/// `SecretKey::public_key` of `sodiumoxide` computes from it.
pub uninterp spec fn public_key(secret: Seq<u8>) -> Seq<u8>;

/// What `sealedbox::open` of `sodiumoxide` finds in `sealed` under a key
/// pair: the plaintext, or `None` where the value does not authenticate.
pub uninterp spec fn opened(sealed: Seq<u8>, public: Seq<u8>, secret: Seq<u8>) -> Option<Seq<u8>>;

/// Whether `sealed` may come out of sealing `plaintext` for `public`: it is
/// `SEAL_BYTES` longer than the plaintext, and under every secret key that
/// `public` belongs to it opens to the plaintext. Sealing draws a fresh
/// one-time key on each call, so many values seal one plaintext.
pub open spec fn seals(sealed: Seq<u8>, plaintext: Seq<u8>, public: Seq<u8>) -> bool {
    &&& sealed.len() == plaintext.len() + SEAL_BYTES
    &&& forall|secret: Seq<u8>| #[trigger]
        public_key(secret) == public ==> opened(sealed, public, secret) == Some(plaintext)
}

/// What opening gives: the plaintext, or `AuthenticationFailure` where the
/// value is too short to be sealed at all or does not authenticate.
pub open spec fn open_spec(sealed: Seq<u8>, public: Seq<u8>, secret: Seq<u8>) -> Result<
    Seq<u8>,
    Error,
> {
    if sealed.len() < SEAL_BYTES {
        Err(Error::AuthenticationFailure)
    } else {
        match opened(sealed, public, secret) {
            Some(plaintext) => Ok(plaintext),
            None => Err(Error::AuthenticationFailure),
        }
    }
}

/// Opening undoes sealing: whatever sealing a plaintext for a public key
/// gives, it opens to that plaintext under the key pair of that public key.
pub proof fn lemma_open_sealed(sealed: Seq<u8>, plaintext: Seq<u8>, secret: Seq<u8>)
    requires
        seals(sealed, plaintext, public_key(secret)),
    ensures
        open_spec(sealed, public_key(secret), secret) == Ok::<Seq<u8>, Error>(plaintext),
{
}

/// A value that is shorter than a seal never opens, whatever the keys.
pub proof fn lemma_too_short_to_open(sealed: Seq<u8>, public: Seq<u8>, secret: Seq<u8>)
    requires
        sealed.len() < SEAL_BYTES,
    ensures
        open_spec(sealed, public, secret) == Err::<Seq<u8>, Error>(Error::AuthenticationFailure),
{
}

/// Calls `SecretKey::public_key`, which multiplies the base point of
/// Curve25519 by the secret key. The result depends on the key alone.
#[verifier::external_body]
pub(crate) fn sodium_public_key(secret: &[u8; 32]) -> (public: [u8; 32])
    ensures
        public@ == public_key(secret@),
{
    sodiumoxide::crypto::box_::SecretKey(*secret).public_key().0
}

/// Calls `box_::gen_keypair`, which fills a secret key with random bytes and
/// computes its public key as `SecretKey::public_key` does. The pair is
/// returned public key first. Nothing is claimed of the bytes drawn.
#[verifier::external_body]
pub(crate) fn sodium_gen_keypair() -> (pair: ([u8; 32], [u8; 32]))
    ensures
        pair.0@ == public_key(pair.1@),
{
    let (public, secret) = sodiumoxide::crypto::box_::gen_keypair();
    (public.0, secret.0)
}

/// Calls `utils::memcmp` of `sodiumoxide`, which tells whether two byte
/// strings of one length hold the same bytes, in time that does not depend on
/// the bytes.
#[verifier::external_body]
pub(crate) fn sodium_memcmp(left: &[u8; 32], right: &[u8; 32]) -> (same: bool)
    ensures
        same == (left@ == right@),
{
    sodiumoxide::utils::memcmp(left, right)
}

/// Calls `utils::memzero` of `sodiumoxide`, which overwrites the bytes with
/// zeros in a way that the compiler does not remove. Nothing is claimed of
/// what the bytes hold afterwards: they are only ever wiped on the way out.
#[verifier::external_body]
pub(crate) fn sodium_memzero(bytes: &mut [u8; 32])
    opens_invariants none
    no_unwind
{
    sodiumoxide::utils::memzero(bytes)
}

/// Calls `sealedbox::seal`, which draws a one-time key pair and returns its
/// public key followed by the boxed plaintext: `SEAL_BYTES` more than the
/// plaintext. The recipient's key pair opens every such value to the
/// plaintext. A plaintext so long that the sealed value could not be
/// allocated is left out.
#[verifier::external_body]
fn sodium_seal(plaintext: &[u8], public: &[u8; 32]) -> (sealed: Vec<u8>)
    requires
        plaintext@.len() + SEAL_BYTES <= isize::MAX,
    ensures
        seals(sealed@, plaintext@, public@),
{
    sodiumoxide::crypto::sealedbox::seal(plaintext, &sodiumoxide::crypto::box_::PublicKey(*public))
}

/// Calls `sealedbox::open`, which depends on its three arguments alone. A
/// plaintext that it returns is `SEAL_BYTES` shorter than the sealed value,
/// so a value shorter than that gives none.
#[verifier::external_body]
fn sodium_open(sealed: &[u8], public: &[u8; 32], secret: &[u8; 32]) -> (outcome: Result<
    Vec<u8>,
    (),
>)
    ensures
        match outcome {
            Ok(plaintext) => opened(sealed@, public@, secret@) == Some(plaintext@),
            Err(_) => opened(sealed@, public@, secret@) is None,
        },
        outcome matches Ok(plaintext) ==> plaintext@.len() + SEAL_BYTES == sealed@.len(),
{
    sodiumoxide::crypto::sealedbox::open(
        sealed,
        &sodiumoxide::crypto::box_::PublicKey(*public),
        &sodiumoxide::crypto::box_::SecretKey(*secret),
    )
}

/// Seals `plaintext` for the holder of `public`. No key of the sender is
/// involved and no nonce is asked for: each call draws its own one-time key,
/// so the value differs from call to call. The plaintext may be empty. The
/// draw is thread-safe once `sodiumoxide::init` has run in the process.
pub fn seal(plaintext: &[u8], public: &[u8; 32]) -> (sealed: Vec<u8>)
    requires
        plaintext@.len() + SEAL_BYTES <= isize::MAX,
    ensures
        seals(sealed@, plaintext@, public@),
{
    sodium_seal(plaintext, public)
}

/// Opens a sealed value under the recipient's key pair. A value that does
/// not authenticate (another recipient's, a damaged one, one too short to be
/// sealed at all) is `AuthenticationFailure`, and nothing of it is returned.
pub fn open(sealed: &[u8], public: &[u8; 32], secret: &[u8; 32]) -> (outcome: Result<
    Vec<u8>,
    Error,
>)
    ensures
        match outcome {
            Ok(plaintext) => {
                &&& open_spec(sealed@, public@, secret@) == Ok::<Seq<u8>, Error>(plaintext@)
                &&& plaintext@.len() + SEAL_BYTES == sealed@.len()
            },
            Err(e) => open_spec(sealed@, public@, secret@) == Err::<Seq<u8>, Error>(e),
        },
{
    match sodium_open(sealed, public, secret) {
        Ok(plaintext) => Ok(plaintext),
        Err(_) => Err(Error::AuthenticationFailure),
    }
}

} // verus!
