use hmac::{Hmac, Mac, NewMac};
use sha2::Sha256;
use vstd::prelude::*;

verus! {

/// Largest request body, in bytes, that is read for a webhook (1 MiB).
pub const BODY_LIMIT: usize = 1048576;

/// The HMAC-SHA256 tag of `message` under `key`.
pub uninterp spec fn hmac_sha256_of(key: Seq<u8>, message: Seq<u8>) -> Seq<u8>;

pub open spec fn is_hex_digit(c: u8) -> bool {
    (0x30 <= c <= 0x39) || (0x41 <= c <= 0x46) || (0x61 <= c <= 0x66)
}

pub open spec fn hex_digit_value(c: u8) -> int {
    if c <= 0x39 {
        c - 0x30
    } else if c <= 0x46 {
        c - 0x41 + 10
    } else {
        c - 0x61 + 10
    }
}

/// Hex text: an even number of digits, upper or lower case.
pub open spec fn is_hex(s: Seq<u8>) -> bool {
    &&& s.len() % 2 == 0
    &&& forall|i: int| 0 <= i < s.len() ==> is_hex_digit(#[trigger] s[i])
}

/// The bytes that hex text stands for, two digits per byte, high nibble first.
pub open spec fn hex_decoded(s: Seq<u8>) -> Seq<u8> {
    Seq::new(
        (s.len() / 2) as nat,
        |i: int| (hex_digit_value(s[2 * i]) * 16 + hex_digit_value(s[2 * i + 1])) as u8,
    )
}

/// The lower-case digit for a nibble.
pub open spec fn hex_digit(n: int) -> u8 {
    if n < 10 {
        (0x30 + n) as u8
    } else {
        (0x61 + n - 10) as u8
    }
}

/// Lower-case hex text of bytes, two digits per byte.
pub open spec fn hex_encoded(b: Seq<u8>) -> Seq<u8> {
    Seq::new(
        2 * b.len(),
        |i: int|
            if i % 2 == 0 {
                hex_digit(b[i / 2] as int / 16)
            } else {
                hex_digit(b[i / 2] as int % 16)
            },
    )
}

/// A signature is valid when it is hex text of the body's HMAC-SHA256 under the secret.
pub open spec fn signature_valid(secret: Seq<u8>, signature: Seq<u8>, body: Seq<u8>) -> bool {
    is_hex(signature) && hex_decoded(signature) == hmac_sha256_of(secret, body)
}

/// Relies on hex::decode: it accepts an even number of hex digits of either case
/// and yields one byte per pair, high nibble first; anything else is an error.
#[verifier::external_body]
fn hex_decode(text: &[u8]) -> (r: Option<Vec<u8>>)
    ensures
        r is Some <==> is_hex(text@),
        r is Some ==> r->Some_0@ == hex_decoded(text@),
{
    hex::decode(text).ok()
}

/// Relies on hmac's `Hmac<Sha256>`: `new_varkey` takes a key of any length,
/// `update` feeds the message, and `verify` accepts exactly the tag that equals
/// the computed one, length included.
#[verifier::external_body]
fn hmac_sha256_verify(key: &[u8], message: &[u8], tag: &[u8]) -> (r: bool)
    ensures
        r == (tag@ == hmac_sha256_of(key@, message@)),
{
    match Hmac::<Sha256>::new_varkey(key) {
        Ok(mut mac) => {
            mac.update(message);
            mac.verify(tag).is_ok()
        },
        Err(_) => false,
    }
}

/// Checks a hex-encoded HMAC-SHA256 signature of `body` under `secret`.
pub fn validate_signature(secret: &[u8], signature: &[u8], body: &[u8]) -> (r: bool)
    ensures
        r == signature_valid(secret@, signature@, body@),
{
    match hex_decode(signature) {
        Some(tag) => hmac_sha256_verify(secret, body, tag.as_slice()),
        None => false,
    }
}

proof fn lemma_hex_byte(b: u8)
    ensures
        is_hex_digit(hex_digit(b as int / 16)),
        is_hex_digit(hex_digit(b as int % 16)),
        (hex_digit_value(hex_digit(b as int / 16)) * 16 + hex_digit_value(hex_digit(b as int % 16))) as u8
            == b,
{
}

/// Hex text of any bytes decodes back to those bytes.
pub proof fn lemma_hex_round_trip(b: Seq<u8>)
    ensures
        is_hex(hex_encoded(b)),
        hex_decoded(hex_encoded(b)) == b,
{
    let e = hex_encoded(b);
    assert forall|i: int| 0 <= i < e.len() implies is_hex_digit(#[trigger] e[i]) by {
        lemma_hex_byte(b[i / 2]);
    }
    assert forall|i: int| 0 <= i < b.len() implies #[trigger] hex_decoded(e)[i] == b[i] by {
        lemma_hex_byte(b[i]);
        assert((2 * i) / 2 == i);
        assert((2 * i + 1) / 2 == i);
        assert((2 * i) % 2 == 0);
        assert((2 * i + 1) % 2 == 1);
    }
    assert(hex_decoded(e) =~= b);
}

/// For any body and secret, the hex text of the body's HMAC under the secret
/// is accepted as its signature.
pub proof fn lemma_genuine_signature_accepted(secret: Seq<u8>, body: Seq<u8>)
    ensures
        signature_valid(secret, hex_encoded(hmac_sha256_of(secret, body)), body),
{
    lemma_hex_round_trip(hmac_sha256_of(secret, body));
}

/// The signature value with one bit flipped.
pub open spec fn flip_bit(b: Seq<u8>, i: int, bit: u8) -> Seq<u8> {
    b.update(i, b[i] ^ (1u8 << bit))
}

/// Flipping any single bit of a genuine signature value makes verification fail.
pub proof fn lemma_flipped_signature_rejected(secret: Seq<u8>, body: Seq<u8>, i: int, bit: u8)
    requires
        0 <= i < hmac_sha256_of(secret, body).len(),
        bit < 8,
    ensures
        !signature_valid(secret, hex_encoded(flip_bit(hmac_sha256_of(secret, body), i, bit)), body),
{
    let mac = hmac_sha256_of(secret, body);
    let flipped = flip_bit(mac, i, bit);
    lemma_hex_round_trip(flipped);
    let x = mac[i];
    assert(x ^ (1u8 << bit) != x) by (bit_vector)
        requires
            bit < 8,
    ;
    assert(flipped[i] != mac[i]);
}

/// Why a webhook request was refused before any job was made.
#[derive(Debug, Clone, Copy, PartialEq, Eq, Structural)]
pub enum AuthError {
    /// The declared content type is not JSON.
    WrongContentType,
    /// Not exactly one signature header.
    SignatureCount,
    /// The body is longer than `BODY_LIMIT`.
    PayloadTooLarge,
    /// The body could not be read.
    Unreadable,
    /// The signature does not match the body.
    BadSignature,
    /// The authenticated body is not the expected JSON.
    MalformedJson,
}

impl AuthError {
    /// The HTTP status the refusal is reported with.
    pub fn status(&self) -> (r: u16)
        ensures
            r == (if *self is PayloadTooLarge {
                413u16
            } else {
                400u16
            }),
    {
        match self {
            AuthError::PayloadTooLarge => 413,
            _ => 400,
        }
    }
}

/// The checks made on a request before its body is read: a JSON content type,
/// then exactly one signature header.
pub fn check_envelope(is_json: bool, signature_count: usize) -> (r: Result<(), AuthError>)
    ensures
        !is_json ==> r == Err::<(), AuthError>(AuthError::WrongContentType),
        is_json && signature_count != 1 ==> r == Err::<(), AuthError>(AuthError::SignatureCount),
        is_json && signature_count == 1 ==> r is Ok,
{
    if !is_json {
        Err(AuthError::WrongContentType)
    } else if signature_count != 1 {
        Err(AuthError::SignatureCount)
    } else {
        Ok(())
    }
}

/// The checks made once the body has been read, at most `BODY_LIMIT` bytes of it:
/// it must have been read whole, then carry a valid signature.
pub fn check_payload(complete: bool, body: &[u8], signature: &[u8], secret: &[u8]) -> (r: Result<
    (),
    AuthError,
>)
    ensures
        !complete ==> r == Err::<(), AuthError>(AuthError::PayloadTooLarge),
        complete && signature_valid(secret@, signature@, body@) ==> r is Ok,
        complete && !signature_valid(secret@, signature@, body@) ==> r == Err::<(), AuthError>(
            AuthError::BadSignature,
        ),
{
    if !complete {
        Err(AuthError::PayloadTooLarge)
    } else if validate_signature(secret, signature, body) {
        Ok(())
    } else {
        Err(AuthError::BadSignature)
    }
}

/// A value parsed from a request body whose signature was checked.
pub struct SignedJson<T>(pub T);

impl<T> SignedJson<T> {
    pub fn new(value: T) -> (r: SignedJson<T>)
        ensures
            r.0 == value,
    {
        SignedJson(value)
    }

    pub fn into_inner(self) -> (r: T)
        ensures
            r == self.0,
    {
        self.0
    }
}

impl<T> core::ops::Deref for SignedJson<T> {
    type Target = T;

    fn deref(&self) -> (r: &T)
        ensures
            r == &self.0,
    {
        &self.0
    }
}

impl<T> core::ops::DerefMut for SignedJson<T> {
    fn deref_mut(&mut self) -> (r: &mut T)
        ensures
            *r == old(self).0,
            final(self).0 == *final(r),
    {
        &mut self.0
    }
}

} // verus!
