//! The wire frame: two magic bytes, a 64-byte HMAC-SHA512 tag over the body,
//! the body's length as a big-endian `u32`, then the JSON body itself.

use byteorder::{ByteOrder, NetworkEndian};
use crypto::hmac::Hmac;
use crypto::mac::Mac;
use crypto::sha2::Sha512;
use vstd::prelude::*;
use vstd::string::is_ascii_spec_bytes;

verus! {

/// Length of the authentication tag in bytes.
pub const TAG_LEN: usize = 64;

/// HMAC-SHA512 of `msg` under `key`, as computed by rust-crypto.
pub uninterp spec fn hmac_sha512_of(key: Seq<u8>, msg: Seq<u8>) -> Seq<u8>;

/// UTF-8 bytes of the JSON string literal that serde_json writes for `s`.
pub uninterp spec fn json_string_of(s: Seq<char>) -> Seq<u8>;

/// The two bytes that open every frame.
pub open spec fn magic() -> Seq<u8> {
    seq![0x30u8, 0x05u8]
}

/// The bytes of a string of ASCII characters.
pub open spec fn ascii_of(s: Seq<char>) -> Seq<u8> {
    Seq::new(s.len(), |i: int| s[i] as u8)
}

/// `n` as four big-endian bytes.
pub open spec fn be32(n: u32) -> Seq<u8> {
    seq![
        (n / 0x100_0000) as u8,
        ((n / 0x1_0000) % 0x100) as u8,
        ((n / 0x100) % 0x100) as u8,
        (n % 0x100) as u8,
    ]
}

/// The number that four big-endian bytes stand for.
pub open spec fn be32_value(b: Seq<u8>) -> int {
    b[0] * 0x100_0000 + b[1] * 0x1_0000 + b[2] * 0x100 + b[3]
}

/// The JSON body `{"type":..,"meta":..,"cont":..}` of a message whose payload
/// is already JSON text.
pub open spec fn body_of(category: Seq<char>, subtopic: Seq<char>, payload: Seq<u8>) -> Seq<u8> {
    ascii_of("{\"type\":"@) + json_string_of(category) + ascii_of(",\"meta\":"@)
        + json_string_of(subtopic) + ascii_of(",\"cont\":"@) + payload + ascii_of("}"@)
}

/// The frame that carries `body`, authenticated under `secret`.
pub open spec fn frame_of(secret: Seq<u8>, body: Seq<u8>) -> Seq<u8> {
    magic() + hmac_sha512_of(secret, body) + be32(body.len() as u32) + body
}

/// Relies on rust-crypto's `Hmac<Sha512>`: the result is the MAC of `msg`
/// under `key`, and its `code()` is the 64 bytes of a SHA-512 digest.
#[verifier::external_body]
fn hmac_sha512(key: &[u8], msg: &[u8]) -> (r: Vec<u8>)
    ensures
        r@ == hmac_sha512_of(key@, msg@),
        r@.len() == 64,
{
    let mut mac = Hmac::new(Sha512::new(), key);
    mac.input(msg);
    mac.result().code().to_vec()
}

/// Relies on serde_json's compact writer for `Value::String`: the quoted,
/// escaped JSON literal of `s`.
#[verifier::external_body]
pub(crate) fn json_string(s: &str) -> (r: Vec<u8>)
    ensures
        r@ == json_string_of(s@),
{
    serde_json::Value::String(s.to_string()).to_string().into_bytes()
}

/// Relies on byteorder's `NetworkEndian::write_u32`: `n` in big-endian order.
#[verifier::external_body]
fn be_u32_bytes(n: u32) -> (r: Vec<u8>)
    ensures
        r@ == be32(n),
{
    let mut buf = vec![0u8; 4];
    NetworkEndian::write_u32(&mut buf, n);
    buf
}

/// Appends the bytes of `src` to `out`.
pub(crate) fn push_bytes(out: &mut Vec<u8>, src: &[u8])
    ensures
        final(out)@ == old(out)@ + src@,
{
    let n = src.len();
    let mut i: usize = 0;
    while i < n
        invariant
            n == src@.len(),
            i <= n,
            out@ == old(out)@ + src@.subrange(0, i as int),
        decreases n - i,
    {
        out.push(src[i]);
        i = i + 1;
        assert(src@.subrange(0, i as int) == src@.subrange(0, i - 1) + seq![src@[i - 1]]);
    }
    assert(src@.subrange(0, n as int) == src@);
}

/// Appends the bytes of the ASCII text `s` to `out`.
pub(crate) fn push_ascii(out: &mut Vec<u8>, s: &str)
    requires
        s.is_ascii(),
    ensures
        final(out)@ == old(out)@ + ascii_of(s@),
{
    proof {
        is_ascii_spec_bytes(s);
    }
    let b = s.as_bytes();
    assert(b@ == ascii_of(s@));
    push_bytes(out, b);
}

/// The JSON body of a message: `{"type":category,"meta":subtopic,"cont":payload}`,
/// where `payload` is JSON text already.
pub fn message_body(category: &str, subtopic: &str, payload: &[u8]) -> (r: Vec<u8>)
    ensures
        r@ == body_of(category@, subtopic@, payload@),
{
    proof {
        reveal_strlit("{\"type\":");
        reveal_strlit(",\"meta\":");
        reveal_strlit(",\"cont\":");
        reveal_strlit("}");
    }
    let mut out: Vec<u8> = Vec::new();
    push_ascii(&mut out, "{\"type\":");
    let mut c = json_string(category);
    out.append(&mut c);
    push_ascii(&mut out, ",\"meta\":");
    let mut m = json_string(subtopic);
    out.append(&mut m);
    push_ascii(&mut out, ",\"cont\":");
    push_bytes(&mut out, payload);
    push_ascii(&mut out, "}");
    out
}

/// The authentication tag of `body` under `secret`.
pub fn authentication_tag(secret: &[u8], body: &[u8]) -> (r: Vec<u8>)
    ensures
        r@ == hmac_sha512_of(secret@, body@),
        r@.len() == TAG_LEN,
{
    hmac_sha512(secret, body)
}

/// Builds the frame for a message. `None` when the body is too long for its
/// length field; otherwise the bytes to write to the backend.
pub fn encode(secret: &[u8], category: &str, subtopic: &str, payload: &[u8]) -> (r: Option<Vec<u8>>)
    ensures
        r is Some <==> body_of(category@, subtopic@, payload@).len() <= u32::MAX,
        r is Some ==> r->Some_0@ == frame_of(secret@, body_of(category@, subtopic@, payload@)),
{
    let mut body = message_body(category, subtopic, payload);
    if body.len() > 0xFFFF_FFFFusize {
        return None;
    }
    let mut out: Vec<u8> = Vec::new();
    out.push(0x30u8);
    out.push(0x05u8);
    let mut tag = hmac_sha512(secret, body.as_slice());
    out.append(&mut tag);
    let mut len = be_u32_bytes(body.len() as u32);
    out.append(&mut len);
    out.append(&mut body);
    assert(out@ =~= frame_of(secret@, body_of(category@, subtopic@, payload@)));
    Some(out)
}

/// Four big-endian bytes read back give the number they were written from.
pub proof fn lemma_be32_round_trip(n: u32)
    ensures
        be32(n).len() == 4,
        be32_value(be32(n)) == n,
{
    let b = be32(n);
    assert(b[0] == n / 0x100_0000);
    assert(b[1] == (n / 0x1_0000) % 0x100);
    assert(b[2] == (n / 0x100) % 0x100);
    assert(b[3] == n % 0x100);
    assert(be32_value(b) == n) by (nonlinear_arith)
        requires
            b[0] == n / 0x100_0000,
            b[1] == (n / 0x1_0000) % 0x100,
            b[2] == (n / 0x100) % 0x100,
            b[3] == n % 0x100,
            n <= u32::MAX,
    ;
}

/// Every frame that `encode` builds has the wire layout: the magic bytes, then
/// a tag equal to the one computed afresh from the same secret and body, then a
/// length field that reads back as exactly the body's length, then the body.
/// (The tag is 64 bytes long: `authentication_tag` ensures it.)
pub proof fn lemma_frame_layout(secret: Seq<u8>, category: Seq<char>, subtopic: Seq<char>, payload: Seq<u8>)
    requires
        body_of(category, subtopic, payload).len() <= u32::MAX,
    ensures
        ({
            let body = body_of(category, subtopic, payload);
            let tag = hmac_sha512_of(secret, body);
            let f = frame_of(secret, body);
            let t: int = 2 + tag.len() as int;
            &&& f.len() == t + 4 + body.len()
            &&& f.subrange(0, 2) == magic()
            &&& f.subrange(2, t) == tag
            &&& be32_value(f.subrange(t, t + 4)) == body.len()
            &&& f.subrange(t + 4, f.len() as int) == body
        }),
{
    let body = body_of(category, subtopic, payload);
    let tag = hmac_sha512_of(secret, body);
    let f = frame_of(secret, body);
    let t: int = 2 + tag.len() as int;
    lemma_be32_round_trip(body.len() as u32);
    assert(f.subrange(0, 2) =~= magic());
    assert(f.subrange(2, t) =~= tag);
    assert(f.subrange(t, t + 4) =~= be32(body.len() as u32));
    assert(f.subrange(t + 4, f.len() as int) =~= body);
}

} // verus!
