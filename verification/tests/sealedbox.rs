use sortasecret::error::Error;
use sortasecret::keypair::Keypair;
use sortasecret::sealedbox::{open, seal, PUBLIC_KEY_BYTES, SEAL_BYTES, SECRET_KEY_BYTES};

fn fresh() -> Keypair {
    sodiumoxide::init().unwrap();
    Keypair::generate()
}

#[test]
fn sizes_are_those_of_the_scheme() {
    assert_eq!(PUBLIC_KEY_BYTES, sodiumoxide::crypto::box_::PUBLICKEYBYTES);
    assert_eq!(SECRET_KEY_BYTES, sodiumoxide::crypto::box_::SECRETKEYBYTES);
    assert_eq!(SEAL_BYTES, sodiumoxide::crypto::sealedbox::SEALBYTES);
    assert_eq!(SEAL_BYTES, 48);
}

#[test]
fn hello_world_round_trip() {
    let keypair = fresh();
    let sealed = seal(b"hello world", keypair.public_key());
    let opened = open(&sealed, keypair.public_key(), keypair.secret_key());
    assert_eq!(opened.unwrap(), b"hello world");
}

#[test]
fn open_undoes_seal_for_every_length() {
    let keypair = fresh();
    for len in 0..200usize {
        let plaintext: Vec<u8> = (0..len).map(|i| (i * 7 + len) as u8).collect();
        let sealed = seal(&plaintext, keypair.public_key());
        assert_eq!(sealed.len(), len + SEAL_BYTES);
        assert_eq!(open(&sealed, keypair.public_key(), keypair.secret_key()), Ok(plaintext));
    }
}

#[test]
fn empty_message_round_trip() {
    let keypair = fresh();
    let sealed = seal(b"", keypair.public_key());
    assert_eq!(sealed.len(), SEAL_BYTES);
    assert_eq!(open(&sealed, keypair.public_key(), keypair.secret_key()), Ok(vec![]));
}

#[test]
fn sealing_twice_gives_different_values() {
    let keypair = fresh();
    let first = seal(b"the same message", keypair.public_key());
    let second = seal(b"the same message", keypair.public_key());
    assert_ne!(first, second);
    let (public, secret) = (keypair.public_key(), keypair.secret_key());
    assert_eq!(open(&first, public, secret).unwrap(), b"the same message");
    assert_eq!(open(&second, public, secret).unwrap(), b"the same message");
}

#[test]
fn sealed_value_does_not_show_the_plaintext() {
    let keypair = fresh();
    let plaintext = b"a plaintext that is long enough to be found again";
    let sealed = seal(plaintext, keypair.public_key());
    assert!(!sealed.windows(plaintext.len()).any(|w| w == plaintext));
}

#[test]
fn open_fails_under_another_key_pair() {
    let ours = fresh();
    let theirs = fresh();
    let sealed = seal(b"hello world", theirs.public_key());
    assert_eq!(
        open(&sealed, ours.public_key(), ours.secret_key()),
        Err(Error::AuthenticationFailure)
    );
    assert_eq!(
        open(&sealed, theirs.public_key(), ours.secret_key()),
        Err(Error::AuthenticationFailure)
    );
    assert_eq!(
        open(&sealed, ours.public_key(), theirs.secret_key()),
        Err(Error::AuthenticationFailure)
    );
    assert_eq!(open(&sealed, theirs.public_key(), theirs.secret_key()).unwrap(), b"hello world");
}

#[test]
fn open_fails_when_any_byte_is_flipped() {
    let keypair = fresh();
    let mut sealed = seal(b"hello world", keypair.public_key());
    for i in 0..sealed.len() {
        for mask in [0x01u8, 0x20, 0x80, 0xff] {
            sealed[i] ^= mask;
            assert_eq!(
                open(&sealed, keypair.public_key(), keypair.secret_key()),
                Err(Error::AuthenticationFailure)
            );
            sealed[i] ^= mask;
        }
    }
    assert_eq!(open(&sealed, keypair.public_key(), keypair.secret_key()).unwrap(), b"hello world");
}

#[test]
fn open_fails_on_what_is_too_short() {
    let keypair = fresh();
    for len in 0..SEAL_BYTES {
        let short = vec![0u8; len];
        assert_eq!(
            open(&short, keypair.public_key(), keypair.secret_key()),
            Err(Error::AuthenticationFailure)
        );
    }
}

#[test]
fn open_fails_on_a_cut_or_lengthened_value() {
    let keypair = fresh();
    let sealed = seal(b"hello world", keypair.public_key());
    let cut = &sealed[..sealed.len() - 1];
    assert_eq!(
        open(cut, keypair.public_key(), keypair.secret_key()),
        Err(Error::AuthenticationFailure)
    );
    let mut longer = sealed.clone();
    longer.push(0);
    assert_eq!(
        open(&longer, keypair.public_key(), keypair.secret_key()),
        Err(Error::AuthenticationFailure)
    );
}

#[test]
fn a_value_sealed_by_the_outside_crate_opens() {
    let keypair = fresh();
    let public = sodiumoxide::crypto::box_::PublicKey(*keypair.public_key());
    let sealed = sodiumoxide::crypto::sealedbox::seal(b"from outside", &public);
    assert_eq!(open(&sealed, keypair.public_key(), keypair.secret_key()).unwrap(), b"from outside");
}
