use sortasecret::error::Error;
use sortasecret::keypair::Keypair;
use sortasecret::server::{encrypt, pubkey, show, Server};

const ALICE_SECRET: &str = "77076d0a7318a57d3c16c17251b26645df4c2f87ebc0992ab177fba51db92c2a";
const ALICE_PUBLIC: &str = "8520f0098930a754748b7ddcb43ef75a0dbf3a0d26381af4eba4a98eaa9b4e6a";

fn alice() -> Keypair {
    sodiumoxide::init().unwrap();
    Keypair::decode(ALICE_SECRET).unwrap()
}

fn config(keypair: &str) -> Server {
    Server {
        bind: "127.0.0.1:8080".to_string(),
        keypair: keypair.to_string(),
        recaptcha_site: "sitekey".to_string(),
        recaptcha_secret: "secretkey".to_string(),
    }
}

#[test]
fn configuration_names_the_key_pair() {
    assert_eq!(config(ALICE_SECRET).make_keypair().unwrap(), alice());
    assert_eq!(config("keypair").make_keypair().unwrap_err(), Error::InvalidHex);
    assert_eq!(config("00ff").make_keypair().unwrap_err(), Error::InvalidKeyLength(2));
}

#[test]
fn configurations_compare_by_their_fields() {
    assert_eq!(config("keypair"), config("keypair"));
    assert_ne!(config("keypair"), config("other"));
}

#[test]
fn pubkey_is_the_text_of_the_public_key() {
    assert_eq!(pubkey(&alice()), (200, ALICE_PUBLIC.to_string()));
}

#[test]
fn encrypt_seals_the_parameter() {
    let keypair = alice();
    let (status, body) = encrypt(&keypair, Some("hello world"));
    assert_eq!(status, 200);
    assert_eq!(keypair.decrypt(&body).unwrap(), b"hello world");
    let (status, body) = encrypt(&keypair, Some(""));
    assert_eq!(status, 200);
    assert_eq!(keypair.decrypt(&body).unwrap(), b"");
}

#[test]
fn encrypt_without_parameter_is_refused() {
    assert_eq!(encrypt(&alice(), None), (400, "Invalid parameters".to_string()));
}

#[test]
fn show_accepts_a_sealed_value_and_returns_its_text() {
    let keypair = alice();
    let sealed = keypair.encrypt(b"hello world");
    assert_eq!(show(&keypair, Some(&sealed)), (200, sealed.clone()));
    let not_text = keypair.encrypt(&[0xff]);
    assert_eq!(show(&keypair, Some(&not_text)), (200, not_text.clone()));
}

#[test]
fn show_refuses_what_is_no_sealed_value() {
    let keypair = alice();
    let refused = (400, "Invalid secret".to_string());
    assert_eq!(show(&keypair, Some("<script>alert(1)</script>")), refused);
    assert_eq!(show(&keypair, Some("not-hex")), refused);
    assert_eq!(show(&keypair, Some("")), refused);
    assert_eq!(show(&keypair, Some("deadbeef")), refused);
    let other = Keypair::generate();
    assert_eq!(show(&keypair, Some(&other.encrypt(b"hello"))), refused);
}

#[test]
fn show_without_parameter_is_refused() {
    assert_eq!(show(&alice(), None), (400, "Invalid parameters".to_string()));
}
