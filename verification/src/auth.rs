//! Request authentication with HMAC-SHA256 over the request payload.
//!
//! A caller signs the exact bytes of a request with the shared secret and
//! sends the lowercase hex encoding of the tag in the `x-jimmy-signature`
//! header. The service recomputes the tag and compares the two texts.

use hmac::digest::InvalidLength;
use hmac::{Hmac, Mac};
use sha2::Sha256;
use vstd::prelude::*;
use vstd::utf8::*;

verus! {

broadcast use vstd::string::group_string_axioms;

/// The HMAC-SHA256 tag of `message` under `key`, as computed by the `hmac`
/// crate with `sha2::Sha256`.
pub uninterp spec fn hmac_sha256(key: Seq<u8>, message: Seq<u8>) -> Seq<u8>;

#[verifier::external_type_specification]
#[verifier::external_body]
pub struct ExInvalidLength(InvalidLength);

/// Calls `Hmac::<Sha256>::new_from_slice`, `Mac::update` and `Mac::finalize`.
/// Trusted: the tag equals `hmac_sha256` of the key and the message and has
/// the 32 bytes of a SHA-256 output, and key setup never fails (the HMAC
/// core accepts keys of every length).
#[verifier::external_body]
fn compute_hmac_sha256(key: &[u8], message: &[u8]) -> (res: Result<Vec<u8>, InvalidLength>)
    ensures
        res is Ok,
        res matches Ok(tag) ==> tag@ == hmac_sha256(key@, message@),
        res matches Ok(tag) ==> tag@.len() == 32,
{
    let mut mac = <Hmac<Sha256> as Mac>::new_from_slice(key)?;
    mac.update(message);
    Ok(mac.finalize().into_bytes().to_vec())
}

/// The lowercase hexadecimal digit for a value below 16.
pub open spec fn hex_digit(v: int) -> char {
    if v < 10 {
        (('0' as int) + v) as char
    } else {
        (('a' as int) + v - 10) as char
    }
}

/// Lowercase hexadecimal text of a byte string, two digits per byte,
/// high nibble first.
pub open spec fn hex_lower(bytes: Seq<u8>) -> Seq<char>
    decreases bytes.len(),
{
    if bytes.len() == 0 {
        Seq::empty()
    } else {
        seq![hex_digit(bytes[0] as int / 16), hex_digit(bytes[0] as int % 16)] + hex_lower(bytes.drop_first())
    }
}

/// The hex text has two digits per byte.
pub proof fn lemma_hex_lower_len(bytes: Seq<u8>)
    ensures
        hex_lower(bytes).len() == 2 * bytes.len(),
    decreases bytes.len(),
{
    if bytes.len() > 0 {
        lemma_hex_lower_len(bytes.drop_first());
    }
}

/// Hex text is lowercase digits only, and different bytes give different
/// text: the signature determines the tag it encodes.
pub proof fn lemma_hex_lower_digits_and_injective(a: Seq<u8>, b: Seq<u8>)
    ensures
        forall|i: int|
            0 <= i < hex_lower(a).len() ==> ('0' <= #[trigger] hex_lower(a)[i] <= '9' || 'a' <= hex_lower(a)[i] <= 'f'),
        forall|i: int|
            0 <= i < a.len() ==> hex_lower(a)[2 * i] == hex_digit(a[i] as int / 16) && hex_lower(a)[2 * i + 1]
                == hex_digit(a[i] as int % 16),
        hex_lower(a) == hex_lower(b) ==> a == b,
    decreases a.len(),
{
    lemma_hex_lower_len(a);
    lemma_hex_lower_len(b);
    if a.len() > 0 {
        lemma_hex_lower_digits_and_injective(a.drop_first(), if b.len() > 0 { b.drop_first() } else { b });
        let ha = hex_lower(a);
        let rest = hex_lower(a.drop_first());
        assert(ha == seq![hex_digit(a[0] as int / 16), hex_digit(a[0] as int % 16)] + rest);
        assert forall|i: int| 0 <= i < a.len() implies ha[2 * i] == hex_digit(a[i] as int / 16) && ha[2 * i + 1]
            == hex_digit(a[i] as int % 16) by {
            if i > 0 {
                assert(a.drop_first()[i - 1] == a[i]);
                assert(ha[2 * i] == rest[2 * (i - 1)]);
                assert(ha[2 * i + 1] == rest[2 * (i - 1) + 1]);
            }
        }
        if ha == hex_lower(b) {
            let hb = hex_lower(b);
            assert(b.len() > 0);
            let rb = hex_lower(b.drop_first());
            assert(hb == seq![hex_digit(b[0] as int / 16), hex_digit(b[0] as int % 16)] + rb);
            assert(ha[0] == hb[0] && ha[1] == hb[1]);
            assert(a[0] as int / 16 == b[0] as int / 16);
            assert(a[0] as int % 16 == b[0] as int % 16);
            assert(a[0] == b[0]);
            assert(rest =~= ha.subrange(2, ha.len() as int));
            assert(rb =~= hb.subrange(2, hb.len() as int));
            assert(a =~= seq![a[0]] + a.drop_first());
            assert(b =~= seq![b[0]] + b.drop_first());
        }
    } else {
        if hex_lower(b).len() == 0 {
            assert(b.len() == 0);
            assert(a =~= b);
        }
    }
}

/// Calls `hex::encode`. Trusted: the text is `hex_lower` of the bytes
/// (the crate's table is `0123456789abcdef`, high nibble first).
#[verifier::external_body]
fn hex_encode(bytes: &[u8]) -> (res: String)
    ensures
        res@ == hex_lower(bytes@),
{
    hex::encode(bytes)
}

/// The signature text that authenticates `payload` under `secret`: the
/// lowercase hex of the HMAC-SHA256 tag keyed by the secret's UTF-8 bytes.
pub open spec fn signature_for(secret: Seq<char>, payload: Seq<u8>) -> Seq<char> {
    hex_lower(hmac_sha256(encode_utf8(secret), payload))
}

/// Why a request was refused.
#[derive(Debug, Clone, Copy, PartialEq, Eq)]
pub enum AuthError {
    /// The secret could not key the MAC.
    InvalidKey,
    /// The signature header does not match the payload.
    InvalidSignature,
}

impl AuthError {
    /// The text of the refusal, as sent back to the caller.
    pub fn message(&self) -> (res: String)
        ensures
            res@ == self.message_text(),
    {
        match self {
            AuthError::InvalidKey => String::from_str("Invalid Length"),
            AuthError::InvalidSignature => String::from_str("invalid signature"),
        }
    }

    pub open spec fn message_text(&self) -> Seq<char> {
        match self {
            AuthError::InvalidKey => "Invalid Length"@,
            AuthError::InvalidSignature => "invalid signature"@,
        }
    }
}

/// Computes the signature text that authenticates `payload` under `secret`.
pub fn expected_signature(secret: &str, payload: &[u8]) -> (res: String)
    ensures
        res@ == signature_for(secret@, payload@),
        res@.len() == 64,
{
    let key = secret.as_bytes();
    match compute_hmac_sha256(key, payload) {
        Ok(tag) => {
            proof {
                lemma_hex_lower_len(tag@);
            }
            hex_encode(tag.as_slice())
        },
        Err(_) => String::new(),
    }
}

/// Checks the signature header of a request against its payload.
///
/// `signature` is the header's text, or the empty text where the header is
/// missing or not visible ASCII. Succeeds exactly when it equals the
/// signature that the shared secret gives the payload.
pub fn authenticate(secret: &str, signature: &str, payload: &[u8]) -> (res: Result<(), AuthError>)
    ensures
        res is Ok <==> signature@ == signature_for(secret@, payload@),
        res is Err ==> res == Err::<(), AuthError>(AuthError::InvalidSignature),
        res is Ok ==> signature@.len() == 64,
{
    let key = secret.as_bytes();
    let tag = match compute_hmac_sha256(key, payload) {
        Ok(tag) => tag,
        Err(_) => {
            return Err(AuthError::InvalidKey);
        },
    };
    proof {
        lemma_hex_lower_len(tag@);
    }
    let expected = hex_encode(tag.as_slice());
    let expected_str = expected.as_str();
    let given = signature.as_bytes();
    let wanted = expected_str.as_bytes();
    if signature.len() != expected_str.len() || !constant_time_eq(given, wanted) {
        proof {
            if signature@ == expected@ {
                assert(given@ == wanted@);
            }
        }
        return Err(AuthError::InvalidSignature);
    }
    proof {
        encode_utf8_decode_utf8(signature@);
        encode_utf8_decode_utf8(expected@);
    }
    Ok(())
}

/// Compares two byte strings without an early exit on the first difference:
/// every byte pair is folded into one accumulator.
pub fn constant_time_eq(a: &[u8], b: &[u8]) -> (res: bool)
    ensures
        res == (a@ == b@),
{
    if a.len() != b.len() {
        return false;
    }
    let mut acc: u8 = 0;
    let mut i: usize = 0;
    while i < a.len()
        invariant
            a.len() == b.len(),
            0 <= i <= a.len(),
            (acc == 0) <==> (forall|j: int| 0 <= j < i ==> a@[j] == b@[j]),
        decreases a.len() - i,
    {
        let x: u8 = a[i];
        let y: u8 = b[i];
        let next: u8 = acc | (x ^ y);
        assert((acc | (x ^ y)) == 0 <==> (acc == 0 && x == y)) by (bit_vector);
        acc = next;
        i = i + 1;
    }
    proof {
        if acc == 0 {
            assert(a@ =~= b@);
        }
    }
    acc == 0
}

} // verus!
