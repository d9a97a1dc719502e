use crypto::hmac::Hmac;
use crypto::mac::Mac;
use crypto::sha2::Sha512;
use webmommi::{authentication_tag, encode, message_body};

fn be32(b: &[u8]) -> usize {
    ((b[0] as usize) << 24) | ((b[1] as usize) << 16) | ((b[2] as usize) << 8) | (b[3] as usize)
}

#[test]
fn body_has_type_meta_cont() {
    let body = message_body("gamenudge", "adminhelp", b"{}");
    assert_eq!(body, br#"{"type":"gamenudge","meta":"adminhelp","cont":{}}"#.to_vec());
}

#[test]
fn body_escapes_strings() {
    let body = message_body("a\"b", "x\\y", b"1");
    assert_eq!(body, br#"{"type":"a\"b","meta":"x\\y","cont":1}"#.to_vec());
}

#[test]
fn frame_layout_and_length_field() {
    let frame = encode(b"secret", "gamenudge", "adminhelp", b"{}").unwrap();
    let body = message_body("gamenudge", "adminhelp", b"{}");
    assert_eq!(&frame[0..2], &[0x30u8, 0x05u8]);
    assert_eq!(frame.len(), 70 + body.len());
    assert_eq!(be32(&frame[66..70]), body.len());
    assert_eq!(&frame[70..], &body[..]);
}

#[test]
fn length_field_is_big_endian() {
    let payload = vec![b'7'; 300];
    let frame = encode(b"k", "t", "m", &payload).unwrap();
    let body_len = frame.len() - 70;
    assert_eq!(body_len, 300 + r#"{"type":"t","meta":"m","cont":}"#.len());
    assert_eq!(&frame[66..70], &[0u8, 0u8, (body_len >> 8) as u8, (body_len & 0xff) as u8]);
}

#[test]
fn tag_matches_independent_hmac() {
    let frame = encode(b"shared secret", "ss14", "server-1", br#"{"a":1}"#).unwrap();
    let body = &frame[70..];
    let mut mac = Hmac::new(Sha512::new(), b"shared secret");
    mac.input(body);
    let expected = mac.result().code().to_vec();
    assert_eq!(&frame[2..66], &expected[..]);
    assert_eq!(authentication_tag(b"shared secret", body), expected);
}

#[test]
fn encoding_is_deterministic() {
    let a = encode(b"s", "gamenudge", "m", b"true").unwrap();
    let b = encode(b"s", "gamenudge", "m", b"true").unwrap();
    assert_eq!(a, b);
}

#[test]
fn tag_changes_on_single_bit_flip() {
    let body = message_body("gamenudge", "adminhelp", br#"{"ping":false}"#);
    let mut tampered = body.clone();
    tampered[10] ^= 0x01;
    assert_ne!(authentication_tag(b"secret", &body), authentication_tag(b"secret", &tampered));
}

#[test]
fn tag_depends_on_secret() {
    let body = message_body("t", "m", b"0");
    assert_ne!(authentication_tag(b"one", &body), authentication_tag(b"two", &body));
}

#[test]
fn authentication_tag_known_vector() {
    let tag = authentication_tag(b"Jefe", b"what do ya want for nothing?");
    let hex: String = tag.iter().map(|b| format!("{:02x}", b)).collect();
    assert_eq!(
        hex,
        "164b7a7bfcf819e2e395fbe73b56e0a387bd64222e831fd610270cd7ea250554\
         9758bf75c05a994a6d034f65f8f0e6fdcaeab1a34d4a6b4b636e070a38bce737"
    );
    assert_eq!(tag.len(), 64);
}
