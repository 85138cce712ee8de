use sortasecret::codec::{decode, encode};
use sortasecret::error::Error;

#[test]
fn encode_writes_two_lower_case_digits_a_byte() {
    assert_eq!(encode(b"Hello World"), "48656c6c6f20576f726c64");
    assert_eq!(encode(&[0xff, 0xcc, 0xaa]), "ffccaa");
    assert_eq!(encode(&[0x00, 0x0f, 0xf0, 0x9a]), "000ff09a");
}

#[test]
fn encode_of_nothing_is_empty() {
    assert_eq!(encode(&[]), "");
}

#[test]
fn encode_doubles_the_length() {
    for len in 0..70usize {
        let bytes = vec![0xabu8; len];
        let text = encode(&bytes);
        assert_eq!(text.len(), 2 * len);
        assert!(text.chars().all(|c| c.is_ascii_digit() || ('a'..='f').contains(&c)));
    }
}

#[test]
fn decode_reads_either_case() {
    assert_eq!(decode("48656c6c6f20576f726c64").unwrap(), b"Hello World");
    assert_eq!(decode("deadBEEF").unwrap(), vec![0xde, 0xad, 0xbe, 0xef]);
    assert_eq!(decode("DEADBEEF").unwrap(), vec![0xde, 0xad, 0xbe, 0xef]);
    assert_eq!(decode("0a").unwrap(), vec![10]);
}

#[test]
fn decode_of_nothing_is_empty() {
    assert_eq!(decode("").unwrap(), Vec::<u8>::new());
}

#[test]
fn decode_refuses_odd_length() {
    assert_eq!(decode("a"), Err(Error::InvalidHex));
    assert_eq!(decode("abc"), Err(Error::InvalidHex));
    assert_eq!(decode("0123456789abcdef0"), Err(Error::InvalidHex));
}

#[test]
fn decode_refuses_what_is_no_digit() {
    assert_eq!(decode("Not Hexadecimal!"), Err(Error::InvalidHex));
    assert_eq!(decode("0g"), Err(Error::InvalidHex));
    assert_eq!(decode("g0"), Err(Error::InvalidHex));
    assert_eq!(decode("00 1"), Err(Error::InvalidHex));
    assert_eq!(decode("0x12"), Err(Error::InvalidHex));
    assert_eq!(decode("-1"), Err(Error::InvalidHex));
    assert_eq!(decode("not-hex"), Err(Error::InvalidHex));
    assert_eq!(decode("ab\n"), Err(Error::InvalidHex));
}

#[test]
fn decode_refuses_what_is_not_ascii() {
    assert_eq!(decode("\u{e9}"), Err(Error::InvalidHex));
    assert_eq!(decode("a\u{e9}b"), Err(Error::InvalidHex));
    assert_eq!(decode("\u{ff11}\u{ff12}"), Err(Error::InvalidHex));
}

#[test]
fn decode_undoes_encode_for_every_byte() {
    let bytes: Vec<u8> = (0..=255u8).collect();
    let text = encode(&bytes);
    assert_eq!(text.len(), 512);
    assert_eq!(decode(&text).unwrap(), bytes);
    assert_eq!(decode(&text.to_uppercase()).unwrap(), bytes);
}

#[test]
fn encode_undoes_decode_in_lower_case() {
    let text = "00ff7f80deadbeef";
    assert_eq!(encode(&decode(text).unwrap()), text);
    assert_eq!(encode(&decode("DeadBeef").unwrap()), "deadbeef");
}
