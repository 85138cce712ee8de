use vstd::prelude::*;
use vstd::std_specs::cmp::PartialEqSpecImpl;

use crate::codec;
use crate::codec::{encoded, is_hex};
pub use crate::error::Error;
use crate::sealedbox;
use crate::sealedbox::{
    open_spec, public_key, seals, sodium_gen_keypair, sodium_memcmp, sodium_memzero,
    sodium_public_key, SEAL_BYTES, SECRET_KEY_BYTES,
};

verus! {

/// `Formatter` of std, which debug output is written to.
#[verifier::external_type_specification]
#[verifier::external_body]
pub struct ExFormatter<'a>(core::fmt::Formatter<'a>);

/// `fmt::Error` of std, with which writing debug output fails.
#[verifier::external_type_specification]
#[verifier::external_body]
pub struct ExFmtError(core::fmt::Error);

/// The bytes of a secret key. They are kept out of debug output, and wiped
/// when the value is dropped.
struct SecretBytes {
    bytes: [u8; 32],
}

/// `Formatter::write_str` of std, which writes text to the output. Nothing
/// is claimed of how it ends.
pub assume_specification<'a>[ core::fmt::Formatter::<'a>::write_str ](
    f: &mut core::fmt::Formatter<'a>,
    data: &str,
) -> (done: core::fmt::Result)
;

impl core::fmt::Debug for SecretBytes {
    /// Writes a fixed text in place of the bytes.
    fn fmt(&self, f: &mut core::fmt::Formatter<'_>) -> (done: core::fmt::Result) {
        f.write_str("SecretKey(****)")
    }
}

impl Drop for SecretBytes {
    fn drop(&mut self)
        opens_invariants none
        no_unwind
    {
        sodium_memzero(&mut self.bytes);
    }
}

/// The recipient's key pair. It is made once, by `generate` or by `decode`,
/// and never changed. The public key is always the one that belongs to the
/// secret key, and `public_hex` is always its text.
///
/// As a value it stands for its secret key: `kp@` is the `SECRET_KEY_BYTES`
/// bytes of it, and two key pairs are equal where these are.
#[derive(Debug)]
pub struct Keypair {
    public_hex: String,
    public: [u8; 32],
    secret: SecretBytes,
}

impl View for Keypair {
    type V = Seq<u8>;

    closed spec fn view(&self) -> Seq<u8> {
        self.secret.bytes@
    }
}

impl Keypair {
    #[verifier::type_invariant]
    spec fn consistent(self) -> bool {
        &&& self.public@ == public_key(self.secret.bytes@)
        &&& self.public_hex@ == encoded(self.public@)
    }

    /// The public key that the key pair holds: what `public_key` hands out.
    pub closed spec fn public_bytes(&self) -> Seq<u8> {
        self.public@
    }

    /// The text that the key pair holds for its public key: what
    /// `public_hex` hands out.
    pub closed spec fn public_text(&self) -> Seq<char> {
        self.public_hex@
    }

    /// What decoding `hex` gives: the secret key that it stands for,
    /// `InvalidHex` where it is not hexadecimal, `InvalidKeyLength` with the
    /// number of bytes where that is not `SECRET_KEY_BYTES`.
    pub open spec fn decode_spec(hex: Seq<char>) -> Result<Seq<u8>, Error> {
        match codec::decode_spec(hex) {
            Err(e) => Err(e),
            Ok(bytes) => if bytes.len() == SECRET_KEY_BYTES {
                Ok(bytes)
            } else {
                Err(Error::InvalidKeyLength(bytes.len() as usize))
            },
        }
    }

    /// Whether `hex` may come out of encrypting `msg` for `public`: it is the
    /// text of a value that seals `msg` for `public`.
    pub open spec fn encrypts(hex: Seq<char>, msg: Seq<u8>, public: Seq<u8>) -> bool {
        exists|sealed: Seq<u8>| #[trigger] encoded(sealed) == hex && seals(sealed, msg, public)
    }

    /// What decrypting `hex` under the key pair of `secret` gives: the
    /// plaintext, `InvalidHex` where `hex` is not hexadecimal,
    /// `AuthenticationFailure` where its bytes do not open.
    pub open spec fn decrypt_spec(secret: Seq<u8>, hex: Seq<char>) -> Result<Seq<u8>, Error> {
        match codec::decode_spec(hex) {
            Err(e) => Err(e),
            Ok(sealed) => open_spec(sealed, public_key(secret), secret),
        }
    }

    /// The text of a secret key reads back as that key, whose text is again
    /// the same: a key file written by `encode` is read by `decode`, and
    /// nothing is lost on the way.
    pub proof fn lemma_decode_encode_round_trip(secret: Seq<u8>)
        requires
            secret.len() == SECRET_KEY_BYTES,
        ensures
            Keypair::decode_spec(encoded(secret)) == Ok::<Seq<u8>, Error>(secret),
            match Keypair::decode_spec(encoded(secret)) {
                Ok(key) => encoded(key) == encoded(secret),
                Err(_) => false,
            },
    {
        codec::lemma_decode_encoded(secret);
    }

    /// Text of the wrong size is no key: hexadecimal text that stands for
    /// another number of bytes than `SECRET_KEY_BYTES` is `InvalidKeyLength`
    /// with that number, and text that is not hexadecimal is `InvalidHex`.
    pub proof fn lemma_decode_rejects(hex: Seq<char>)
        ensures
            !is_hex(hex) ==> Keypair::decode_spec(hex) == Err::<Seq<u8>, Error>(Error::InvalidHex),
            is_hex(hex) && hex.len() != 2 * SECRET_KEY_BYTES ==> Keypair::decode_spec(hex) == Err::<
                Seq<u8>,
                Error,
            >(Error::InvalidKeyLength((hex.len() / 2) as usize)),
            is_hex(hex) && hex.len() == 2 * SECRET_KEY_BYTES ==> Keypair::decode_spec(hex) is Ok,
    {
    }

    /// Encrypting gives hexadecimal text in lower case, twice as long as the
    /// message and the seal together.
    pub proof fn lemma_encrypted_shape(hex: Seq<char>, msg: Seq<u8>, public: Seq<u8>)
        requires
            Keypair::encrypts(hex, msg, public),
        ensures
            is_hex(hex),
            hex.len() == 2 * (msg.len() + SEAL_BYTES),
            forall|i: int|
                0 <= i < hex.len() ==> {
                    let c = #[trigger] hex[i];
                    '0' <= c <= '9' || 'a' <= c <= 'f'
                },
    {
        let sealed = choose|sealed: Seq<u8>| #[trigger]
            encoded(sealed) == hex && seals(sealed, msg, public);
        codec::lemma_encoded_shape(sealed);
    }

    /// Decrypting undoes encrypting: whatever text encrypting a message for
    /// a key pair gives, that key pair decrypts it to the message.
    pub proof fn lemma_decrypt_encrypted(secret: Seq<u8>, msg: Seq<u8>, hex: Seq<char>)
        requires
            Keypair::encrypts(hex, msg, public_key(secret)),
        ensures
            Keypair::decrypt_spec(secret, hex) == Ok::<Seq<u8>, Error>(msg),
    {
        let sealed = choose|sealed: Seq<u8>| #[trigger]
            encoded(sealed) == hex && seals(sealed, msg, public_key(secret));
        codec::lemma_decode_encoded(sealed);
    }

    /// A secret key has `SECRET_KEY_BYTES` bytes.
    pub proof fn lemma_secret_len(&self)
        ensures
            self@.len() == SECRET_KEY_BYTES,
    {
    }

    fn assemble(public: [u8; 32], secret: [u8; 32]) -> (kp: Keypair)
        requires
            public@ == public_key(secret@),
        ensures
            kp@ == secret@,
            kp.public_bytes() == public@,
            kp.public_text() == encoded(public@),
    {
        let public_hex = codec::encode(public.as_slice());
        Keypair { public_hex, public, secret: SecretBytes { bytes: secret } }
    }

    /// Makes a new key pair from a secret key drawn at random: the pair
    /// holds the public key that belongs to the secret key drawn, and the
    /// text of that public key. Nothing is said of the draw itself. It is
    /// thread-safe once `sodiumoxide::init` has run in the process.
    pub fn generate() -> (kp: Keypair)
        ensures
            kp@.len() == SECRET_KEY_BYTES,
            kp.public_bytes() == public_key(kp@),
            kp.public_text() == encoded(kp.public_bytes()),
    {
        let (public, secret) = sodium_gen_keypair();
        Keypair::assemble(public, secret)
    }

    /// The text of the secret key. It is what a key file holds, and is never
    /// to be sent anywhere.
    pub fn encode(&self) -> (hex: String)
        ensures
            hex@ == encoded(self@),
            hex@.len() == 2 * SECRET_KEY_BYTES,
    {
        codec::encode(self.secret.bytes.as_slice())
    }

    /// Makes the key pair of the secret key that `hex` stands for.
    pub fn decode(hex: &str) -> (outcome: Result<Keypair, Error>)
        ensures
            match outcome {
                Ok(kp) => Keypair::decode_spec(hex@) == Ok::<Seq<u8>, Error>(kp@),
                Err(e) => Keypair::decode_spec(hex@) == Err::<Seq<u8>, Error>(e),
            },
    {
        let bytes = match codec::decode(hex) {
            Ok(bytes) => bytes,
            Err(e) => {
                return Err(e);
            },
        };
        if bytes.len() != SECRET_KEY_BYTES {
            return Err(Error::InvalidKeyLength(bytes.len()));
        }
        let mut secret = [0u8; 32];
        let mut i: usize = 0;
        while i < SECRET_KEY_BYTES
            invariant
                i <= SECRET_KEY_BYTES,
                bytes@.len() == SECRET_KEY_BYTES,
                forall|j: int| 0 <= j < i ==> secret@[j] == bytes@[j],
            decreases SECRET_KEY_BYTES - i,
        {
            secret[i] = bytes[i];
            i += 1;
        }
        assert(secret@ =~= bytes@);
        let public = sodium_public_key(&secret);
        Ok(Keypair::assemble(public, secret))
    }

    /// The text of the public key. Anyone may have it: with it one can seal
    /// a value for this key pair, and open none.
    pub fn public_hex(&self) -> (hex: &str)
        ensures
            hex@ == self.public_text(),
            hex@ == encoded(public_key(self@)),
    {
        proof {
            use_type_invariant(self);
        }
        self.public_hex.as_str()
    }

    /// The public key.
    pub fn public_key(&self) -> (public: &[u8; 32])
        ensures
            public@ == self.public_bytes(),
            public@ == public_key(self@),
    {
        proof {
            use_type_invariant(self);
        }
        &self.public
    }

    /// The secret key.
    pub fn secret_key(&self) -> (secret: &[u8; 32])
        ensures
            secret@ == self@,
    {
        &self.secret.bytes
    }

    /// Seals `msg` for this key pair and returns the text of the sealed
    /// value. Each call seals anew, so the text differs from call to call.
    pub fn encrypt(&self, msg: &[u8]) -> (hex: String)
        requires
            2 * (msg@.len() + SEAL_BYTES) <= usize::MAX,
        ensures
            Keypair::encrypts(hex@, msg@, public_key(self@)),
    {
        proof {
            use_type_invariant(self);
        }
        let sealed = sealedbox::seal(msg, &self.public);
        codec::encode(sealed.as_slice())
    }

    /// Reads `hex` as a sealed value and opens it with this key pair.
    pub fn decrypt(&self, hex: &str) -> (outcome: Result<Vec<u8>, Error>)
        ensures
            match outcome {
                Ok(msg) => Keypair::decrypt_spec(self@, hex@) == Ok::<Seq<u8>, Error>(msg@),
                Err(e) => Keypair::decrypt_spec(self@, hex@) == Err::<Seq<u8>, Error>(e),
            },
    {
        proof {
            use_type_invariant(self);
        }
        match codec::decode(hex) {
            Ok(sealed) => sealedbox::open(sealed.as_slice(), &self.public, &self.secret.bytes),
            Err(e) => Err(e),
        }
    }
}

impl PartialEq for Keypair {
    fn eq(&self, other: &Keypair) -> (equal: bool) {
        sodium_memcmp(&self.secret.bytes, &other.secret.bytes)
    }
}

impl PartialEqSpecImpl for Keypair {
    open spec fn obeys_eq_spec() -> bool {
        true
    }

    open spec fn eq_spec(&self, other: &Keypair) -> bool {
        self@ == other@
    }
}

} // verus!
