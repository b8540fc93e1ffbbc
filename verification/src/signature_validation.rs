//! Authenticity of inbound webhook requests: the platform signs the
//! timestamp header followed by the raw body with its Ed25519 key, and sends
//! the signature as hexadecimal digits.

use ed25519_dalek::{Signature, Verifier, VerifyingKey};
use vstd::prelude::*;
use vstd::slice::slice_to_vec;

verus! {

/// The header that carries the signature, as 128 hexadecimal digits.
pub const SIGNATURE_HEADER: &'static str = "x-signature-ed25519";

/// The header that carries the timestamp that was signed with the body.
pub const TIMESTAMP_HEADER: &'static str = "x-signature-timestamp";

/// Why a webhook request was not accepted as an interaction.
#[derive(Debug, Clone, Copy, PartialEq, Eq)]
pub enum ExtractFailure {
    /// The signature header is not 128 hexadecimal digits.
    Hex,
    /// The signature does not verify over the timestamp and body.
    Signature,
    /// The body carried a valid signature but is not an interaction payload.
    Deserialize,
}

/// Why a configured verification key was not accepted.
#[derive(Debug, Clone, Copy, PartialEq, Eq)]
pub enum KeyConversionError {
    /// The text is not 64 hexadecimal digits.
    Hex,
    /// The 32 bytes are not the encoding of a point of the curve.
    Point,
}

/// The value of the hexadecimal digit `b`, in either case.
pub open spec fn hex_digit(b: u8) -> Option<u8> {
    if 0x30 <= b && b <= 0x39 {
        Some((b - 0x30) as u8)
    } else if 0x61 <= b && b <= 0x66 {
        Some((b - 0x61 + 10) as u8)
    } else if 0x41 <= b && b <= 0x46 {
        Some((b - 0x41 + 10) as u8)
    } else {
        None
    }
}

/// Whether `s` is an even number of hexadecimal digits.
pub open spec fn is_hex(s: Seq<u8>) -> bool {
    s.len() % 2 == 0 && forall|i: int| 0 <= i < s.len() ==> (#[trigger] hex_digit(s[i])) is Some
}

/// The byte written as the two digits `hi` and `lo`.
pub open spec fn hex_byte(hi: u8, lo: u8) -> u8 {
    (hex_digit(hi).unwrap() * 16 + hex_digit(lo).unwrap()) as u8
}

/// The bytes that `s` spells out, for `s` that `is_hex`.
pub open spec fn hex_bytes(s: Seq<u8>) -> Seq<u8> {
    Seq::new(s.len() / 2, |i: int| hex_byte(s[2 * i], s[2 * i + 1]))
}

/// The `n` bytes that `s` spells out, if it is exactly `2 * n` hexadecimal digits.
pub open spec fn hex_decoded(s: Seq<u8>, n: nat) -> Option<Seq<u8>> {
    if is_hex(s) && s.len() == 2 * n {
        Some(hex_bytes(s))
    } else {
        None
    }
}

/// Reads one hexadecimal digit.
pub fn decode_digit(b: u8) -> (v: Option<u8>)
    ensures
        v == hex_digit(b),
        v matches Some(d) ==> d < 16,
{
    if 0x30 <= b && b <= 0x39 {
        Some(b - 0x30)
    } else if 0x61 <= b && b <= 0x66 {
        Some(b - 0x61 + 10)
    } else if 0x41 <= b && b <= 0x46 {
        Some(b - 0x41 + 10)
    } else {
        None
    }
}

/// Decodes exactly `N` bytes from `2 * N` hexadecimal digits.
pub fn decode_hex<const N: usize>(data: &[u8]) -> (out: Option<[u8; N]>)
    ensures
        match out {
            Some(bytes) => hex_decoded(data@, N as nat) == Some(bytes@),
            None => hex_decoded(data@, N as nat) is None,
        },
{
    if data.len() % 2 != 0 || data.len() / 2 != N {
        return None;
    }
    let mut out = [0u8; N];
    let mut i: usize = 0;
    while i < N
        invariant
            i <= N,
            data@.len() == 2 * N,
            2 * N <= usize::MAX,
            forall|k: int| 0 <= k < 2 * i ==> (#[trigger] hex_digit(data@[k])) is Some,
            forall|k: int| 0 <= k < i ==> out@[k] == hex_byte(data@[2 * k], data@[2 * k + 1]),
        decreases N - i,
    {
        let hi = decode_digit(data[2 * i]);
        let lo = decode_digit(data[2 * i + 1]);
        match (hi, lo) {
            (Some(h), Some(l)) => {
                out[i] = h * 16 + l;
            },
            _ => {
                return None;
            },
        }
        i += 1;
    }
    assert(out@ =~= hex_bytes(data@));
    Some(out)
}

/// Whether the 32 bytes `key` are the compressed encoding of a point of the
/// Edwards curve, as `ed25519_dalek::VerifyingKey::from_bytes` decides it.
pub uninterp spec fn ed25519_decompresses(key: Seq<u8>) -> bool;

/// Whether `signature` is accepted for `message` under the public key `key`,
/// as `ed25519_dalek::VerifyingKey::verify` decides it.
pub uninterp spec fn ed25519_verifies(key: Seq<u8>, message: Seq<u8>, signature: Seq<u8>) -> bool;

/// Asks `ed25519_dalek::VerifyingKey::from_bytes` whether `key` encodes a
/// point of the curve. The answer depends on the 32 bytes alone.
#[verifier::external_body]
fn point_decompresses(key: &[u8; 32]) -> (ok: bool)
    ensures
        ok == ed25519_decompresses(key@),
{
    VerifyingKey::from_bytes(key).is_ok()
}

/// Asks `ed25519_dalek`'s `Verifier::verify` for `VerifyingKey` whether
/// `signature` is valid for `message` under `key`. The key is rebuilt from
/// its bytes with `VerifyingKey::from_bytes`; bytes that are no key verify
/// nothing. The answer depends on the three byte strings alone.
#[verifier::external_body]
fn signature_verifies(key: &[u8; 32], message: &[u8], signature: &[u8; 64]) -> (ok: bool)
    ensures
        ok == ed25519_verifies(key@, message@, signature@),
{
    match VerifyingKey::from_bytes(key) {
        Ok(point) => point.verify(message, &Signature::from_bytes(signature)).is_ok(),
        Err(_) => false,
    }
}

/// What becomes of a request signed with `signature_hex`: it is refused as
/// `Hex` unless the header is 128 hexadecimal digits, refused as `Signature`
/// unless those 64 bytes are a valid signature of the timestamp followed by the
/// body under `key`, and accepted otherwise.
pub open spec fn verdict(
    key: Seq<u8>,
    signature_hex: Seq<u8>,
    timestamp: Seq<u8>,
    body: Seq<u8>,
) -> Result<(), ExtractFailure> {
    match hex_decoded(signature_hex, 64) {
        None => Err(ExtractFailure::Hex),
        Some(signature) => if ed25519_verifies(key, timestamp + body, signature) {
            Ok(())
        } else {
            Err(ExtractFailure::Signature)
        },
    }
}

/// A request is accepted if and only if its signature header spells out
/// 64 bytes that are a valid signature of the timestamp followed by the
/// body.
pub proof fn law_accepts_valid_signatures_only(
    key: Seq<u8>,
    signature_hex: Seq<u8>,
    timestamp: Seq<u8>,
    body: Seq<u8>,
)
    ensures
        verdict(key, signature_hex, timestamp, body) is Ok <==> (hex_decoded(signature_hex, 64)
            matches Some(signature) && ed25519_verifies(key, timestamp + body, signature)),
{
}

/// The platform's public verification key. A value of this type always
/// holds 32 bytes that encode a point of the curve.
pub struct Key {
    bytes: [u8; 32],
}

impl View for Key {
    type V = Seq<u8>;

    closed spec fn view(&self) -> Seq<u8> {
        self.bytes@
    }
}

impl Key {
    #[verifier::type_invariant]
    spec fn on_curve(self) -> bool {
        ed25519_decompresses(self.bytes@)
    }

    /// Reads a key from its 64 hexadecimal digits.
    pub fn from_hex(pub_key: &[u8]) -> (key: Result<Key, KeyConversionError>)
        ensures
            match key {
                Ok(k) => hex_decoded(pub_key@, 32) == Some(k@) && ed25519_decompresses(k@),
                Err(KeyConversionError::Hex) => hex_decoded(pub_key@, 32) is None,
                Err(KeyConversionError::Point) => hex_decoded(pub_key@, 32) matches Some(bytes)
                    && !ed25519_decompresses(bytes),
            },
    {
        match decode_hex::<32>(pub_key) {
            None => Err(KeyConversionError::Hex),
            Some(bytes) => {
                if point_decompresses(&bytes) {
                    Ok(Key { bytes })
                } else {
                    Err(KeyConversionError::Point)
                }
            },
        }
    }

    /// The 32 bytes of the key.
    pub fn to_bytes(&self) -> (bytes: [u8; 32])
        ensures
            bytes@ == self@,
            ed25519_decompresses(bytes@),
    {
        proof {
            use_type_invariant(self);
        }
        self.bytes
    }

    /// Checks the hexadecimal `signature` against `timestamp` followed by
    /// `body`. Nothing but the signature's digits is looked at before the
    /// signature has been decoded, and the body is never interpreted.
    pub fn verify(&self, signature: &[u8], timestamp: &[u8], body: &[u8]) -> (outcome: Result<
        (),
        ExtractFailure,
    >)
        ensures
            outcome == verdict(self@, signature@, timestamp@, body@),
    {
        match decode_hex::<64>(signature) {
            None => Err(ExtractFailure::Hex),
            Some(decoded) => {
                let mut message = slice_to_vec(timestamp);
                message.extend_from_slice(body);
                assert(message@ =~= timestamp@ + body@);
                if signature_verifies(&self.bytes, message.as_slice(), &decoded) {
                    Ok(())
                } else {
                    Err(ExtractFailure::Signature)
                }
            },
        }
    }
}

/// A request body whose signature has been checked. Only
/// `extract_interaction` makes one, so holding one is proof that the
/// bytes came from the platform.
pub struct VerifiedBody {
    bytes: Vec<u8>,
}

impl View for VerifiedBody {
    type V = Seq<u8>;

    closed spec fn view(&self) -> Seq<u8> {
        self.bytes@
    }
}

impl VerifiedBody {
    /// The authenticated bytes, ready to be read as an interaction payload.
    pub fn as_bytes(&self) -> (bytes: &[u8])
        ensures
            bytes@ == self@,
    {
        self.bytes.as_slice()
    }
}

/// Admits `body` for interpretation if and only if `signature` is the
/// platform's signature of `timestamp` followed by `body`.
pub fn extract_interaction(signature: &[u8], timestamp: &[u8], body: &[u8], key: &Key) -> (outcome:
    Result<VerifiedBody, ExtractFailure>)
    ensures
        match outcome {
            Ok(verified) => verdict(key@, signature@, timestamp@, body@) is Ok && verified@
                == body@,
            Err(failure) => verdict(key@, signature@, timestamp@, body@) == Err::<
                (),
                ExtractFailure,
            >(failure),
        },
{
    match key.verify(signature, timestamp, body) {
        Ok(()) => Ok(VerifiedBody { bytes: slice_to_vec(body) }),
        Err(failure) => Err(failure),
    }
}

} // verus!
