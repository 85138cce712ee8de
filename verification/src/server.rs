use vstd::prelude::*;
use vstd::string::StringSliceAdditionalSpecFns;

use crate::codec::{encoded, is_hex};
use crate::error::Error;
use crate::http::{STATUS_BAD_REQUEST, STATUS_OK};
use crate::keypair::Keypair;
use crate::sealedbox::{public_key, SEAL_BYTES};

verus! {

/// What the server is started with. It is read once, when the process
/// starts, and handed to what needs it: no key and no credential is built
/// into the program.
#[derive(Debug, PartialEq, Eq)]
pub struct Server {
    /// Host and port to bind to.
    pub bind: String,
    /// The text of the secret key.
    pub keypair: String,
    /// The site key of the human-verification service.
    pub recaptcha_site: String,
    /// The secret that the human-verification service is asked with.
    pub recaptcha_secret: String,
}

impl Server {
    /// The key pair that the configuration names.
    pub fn make_keypair(&self) -> (outcome: Result<Keypair, Error>)
        ensures
            match outcome {
                Ok(kp) => Keypair::decode_spec(self.keypair@) == Ok::<Seq<u8>, Error>(kp@),
                Err(e) => Keypair::decode_spec(self.keypair@) == Err::<Seq<u8>, Error>(e),
            },
    {
        Keypair::decode(self.keypair.as_str())
    }
}

/// Answers a request for the public key: its text, for anyone.
pub fn pubkey(keypair: &Keypair) -> (reply: (u16, String))
    ensures
        reply.0 == STATUS_OK,
        reply.1@ == encoded(public_key(keypair@)),
{
    (STATUS_OK, keypair.public_hex().to_owned())
}

/// Answers a request to seal the parameter `secret`: the text of the sealed
/// value, or a refusal where the parameter is missing.
pub fn encrypt(keypair: &Keypair, secret: Option<&str>) -> (reply: (u16, String))
    requires
        secret matches Some(plaintext) ==> 2 * (plaintext.spec_bytes().len() + SEAL_BYTES)
            <= usize::MAX,
    ensures
        match secret {
            Some(plaintext) => {
                &&& reply.0 == STATUS_OK
                &&& Keypair::encrypts(reply.1@, plaintext.spec_bytes(), public_key(keypair@))
            },
            None => reply.0 == STATUS_BAD_REQUEST && reply.1@ == "Invalid parameters"@,
        },
{
    match secret {
        Some(plaintext) => (STATUS_OK, keypair.encrypt(plaintext.as_bytes())),
        None => (STATUS_BAD_REQUEST, "Invalid parameters".to_owned()),
    }
}

/// Answers a request to show the page that reveals the parameter `secret`.
/// The text is opened only to see that it is a sealed value of this key
/// pair; the plaintext is dropped, and the reply holds the text itself, for
/// the page to ask for its plaintext with. Text that is accepted is
/// hexadecimal, so nothing else ever reaches the page.
pub fn show(keypair: &Keypair, secret: Option<&str>) -> (reply: (u16, String))
    ensures
        match secret {
            Some(hex) => if Keypair::decrypt_spec(keypair@, hex@) is Ok {
                reply.0 == STATUS_OK && reply.1@ == hex@ && is_hex(hex@)
            } else {
                reply.0 == STATUS_BAD_REQUEST && reply.1@ == "Invalid secret"@
            },
            None => reply.0 == STATUS_BAD_REQUEST && reply.1@ == "Invalid parameters"@,
        },
{
    match secret {
        Some(hex) => match keypair.decrypt(hex) {
            Ok(_) => (STATUS_OK, hex.to_owned()),
            Err(_) => (STATUS_BAD_REQUEST, "Invalid secret".to_owned()),
        },
        None => (STATUS_BAD_REQUEST, "Invalid parameters".to_owned()),
    }
}

} // verus!
