//! The signature gate: a request is accepted only when its hex-encoded Ed25519
//! signature verifies, under the platform's public key, over the exact bytes
//! `timestamp || body`.

use vstd::prelude::*;
use ed25519_dalek::Verifier;

verus! {

/// Why a request was refused.
#[derive(Debug, Clone, Copy, PartialEq, Eq, Structural)]
pub enum GateError {
    /// The signature header is absent.
    MissingSignature,
    /// The timestamp header is absent.
    MissingTimestamp,
    /// The signature header is not the lower-case hex encoding of 64 bytes.
    MalformedSignature,
    /// The signature does not verify over `timestamp || body`.
    BadSignature,
}

/// Length in bytes of an Ed25519 public key.
pub const PUBLIC_KEY_LEN: usize = 32;

/// Length in bytes of an Ed25519 signature.
pub const SIGNATURE_LEN: usize = 64;

/// Whether `signature` is a valid Ed25519 signature of `message` under the
/// public key `key` (as decided by ed25519-dalek).
pub uninterp spec fn ed25519_verifies(key: Seq<u8>, message: Seq<u8>, signature: Seq<u8>) -> bool;

/// Relies on ed25519_dalek's `VerifyingKey::from_bytes` and
/// `<VerifyingKey as Verifier>::verify`: a key that is not a curve point
/// verifies nothing; otherwise the answer depends on the three byte strings alone.
#[verifier::external_body]
fn verify_ed25519(key: &Vec<u8>, message: &Vec<u8>, signature: &Vec<u8>) -> (r: bool)
    requires
        key@.len() == PUBLIC_KEY_LEN,
        signature@.len() == SIGNATURE_LEN,
    ensures
        r == ed25519_verifies(key@, message@, signature@),
{
    let key_bytes: [u8; 32] = key.as_slice().try_into().unwrap();
    let sig_bytes: [u8; 64] = signature.as_slice().try_into().unwrap();
    match ed25519_dalek::VerifyingKey::from_bytes(&key_bytes) {
        Ok(k) => k.verify(message, &ed25519_dalek::Signature::from_bytes(&sig_bytes)).is_ok(),
        Err(_) => false,
    }
}

/// Value of a lower-case ASCII hex digit, or -1 for any other byte. Only the
/// lower-case form is accepted, so each byte string has one encoding.
pub open spec fn hex_value(c: u8) -> int {
    if 48 <= c <= 57 {
        c - 48
    } else if 97 <= c <= 102 {
        c - 87
    } else {
        -1
    }
}

/// Every byte of `s` is a lower-case hex digit.
pub open spec fn all_hex(s: Seq<u8>) -> bool {
    forall|i: int| 0 <= i < s.len() ==> hex_value(#[trigger] s[i]) >= 0
}

/// The bytes that the hex text `s` encodes, two digits per byte, high digit
/// first; `None` when `s` has odd length or a byte that is not a hex digit.
pub open spec fn hex_decode(s: Seq<u8>) -> Option<Seq<u8>> {
    if s.len() % 2 == 0 && all_hex(s) {
        Some(Seq::new((s.len() / 2) as nat, |i: int| (hex_value(s[2 * i]) * 16 + hex_value(s[2 * i + 1])) as u8))
    } else {
        None
    }
}

/// The views of an optional byte vector.
pub open spec fn opt_bytes(o: Option<Vec<u8>>) -> Option<Seq<u8>> {
    match o {
        Some(v) => Some(v@),
        None => None,
    }
}

/// The outcome of authenticating a request with the given headers and raw body.
pub open spec fn gate_verdict(
    key: Seq<u8>,
    signature: Option<Seq<u8>>,
    timestamp: Option<Seq<u8>>,
    body: Seq<u8>,
) -> Result<(), GateError> {
    match signature {
        None => Err(GateError::MissingSignature),
        Some(sig_hex) => match timestamp {
            None => Err(GateError::MissingTimestamp),
            Some(ts) => match hex_decode(sig_hex) {
                None => Err(GateError::MalformedSignature),
                Some(sig) => if sig.len() != SIGNATURE_LEN {
                    Err(GateError::MalformedSignature)
                } else if ed25519_verifies(key, ts + body, sig) {
                    Ok(())
                } else {
                    Err(GateError::BadSignature)
                },
            },
        },
    }
}

/// A request carrying both headers is accepted exactly when its signature
/// decodes to 64 bytes that verify over its own `timestamp || body`: a request
/// whose timestamp or body bytes differ from the signed ones is judged on the
/// bytes it carries, and so is accepted only if the signature verifies over those.
pub proof fn law_gate_judges_exact_bytes(key: Seq<u8>, sig_hex: Seq<u8>, timestamp: Seq<u8>, body: Seq<u8>)
    ensures
        gate_verdict(key, Some(sig_hex), Some(timestamp), body) is Ok <==> (hex_decode(sig_hex) matches Some(
            sig,
        ) && sig.len() == SIGNATURE_LEN && ed25519_verifies(key, timestamp + body, sig)),
{
}

/// Hex text decodes to given bytes from one text only: two signature headers
/// that differ in any byte never decode to the same signature.
pub proof fn law_hex_decode_injective(a: Seq<u8>, b: Seq<u8>)
    requires
        hex_decode(a) is Some,
        hex_decode(a) == hex_decode(b),
    ensures
        a == b,
{
    let da = hex_decode(a).unwrap();
    let db = hex_decode(b).unwrap();
    assert(da.len() == db.len());
    assert forall|i: int| 0 <= i < a.len() implies a[i] == b[i] by {
        let j = i / 2;
        assert(0 <= j < da.len());
        assert(da[j] == db[j]);
        let ha = hex_value(a[2 * j]);
        let la = hex_value(a[2 * j + 1]);
        let hb = hex_value(b[2 * j]);
        let lb = hex_value(b[2 * j + 1]);
        assert(0 <= ha < 16 && 0 <= la < 16 && 0 <= hb < 16 && 0 <= lb < 16);
        assert(ha * 16 + la == hb * 16 + lb);
        assert(ha == hb && la == lb);
        assert(i == 2 * j || i == 2 * j + 1);
    }
    assert(a =~= b);
}

/// Value of one hex digit.
pub fn hex_digit(c: u8) -> (r: Option<u8>)
    ensures
        match r {
            Some(v) => hex_value(c) >= 0 && v == hex_value(c) && v < 16,
            None => hex_value(c) < 0,
        },
{
    if 48 <= c && c <= 57 {
        Some(c - 48)
    } else if 97 <= c && c <= 102 {
        Some(c - 87)
    } else {
        None
    }
}

/// Decodes lower-case hex text into bytes.
pub fn decode_hex(text: &Vec<u8>) -> (r: Option<Vec<u8>>)
    ensures
        opt_bytes(r) == hex_decode(text@),
{
    if text.len() % 2 != 0 {
        return None;
    }
    let mut out: Vec<u8> = Vec::new();
    let mut i: usize = 0;
    while i < text.len()
        invariant
            text@.len() % 2 == 0,
            i % 2 == 0,
            i <= text@.len(),
            out@.len() == i / 2,
            forall|j: int| 0 <= j < i ==> hex_value(#[trigger] text@[j]) >= 0,
            forall|j: int|
                0 <= j < out@.len() ==> #[trigger] out@[j] == (hex_value(text@[2 * j]) * 16
                    + hex_value(text@[2 * j + 1])) as u8,
        decreases text@.len() - i,
    {
        let hi = hex_digit(text[i]);
        let lo = hex_digit(text[i + 1]);
        match (hi, lo) {
            (Some(h), Some(l)) => {
                out.push(h * 16 + l);
                i = i + 2;
            },
            _ => {
                assert(!all_hex(text@));
                return None;
            },
        }
    }
    assert(out@ =~= Seq::new((text@.len() / 2) as nat, |j: int| (hex_value(text@[2 * j]) * 16 + hex_value(text@[2 * j + 1])) as u8));
    Some(out)
}

/// Appends `body` to `timestamp`: the exact bytes that the platform signs.
pub fn signed_message(timestamp: &Vec<u8>, body: &Vec<u8>) -> (r: Vec<u8>)
    ensures
        r@ == timestamp@ + body@,
{
    let mut out: Vec<u8> = Vec::new();
    let mut i: usize = 0;
    while i < timestamp.len()
        invariant
            i <= timestamp@.len(),
            out@ == timestamp@.subrange(0, i as int),
        decreases timestamp@.len() - i,
    {
        out.push(timestamp[i]);
        i = i + 1;
    }
    let mut j: usize = 0;
    while j < body.len()
        invariant
            j <= body@.len(),
            out@ == timestamp@ + body@.subrange(0, j as int),
        decreases body@.len() - j,
    {
        out.push(body[j]);
        j = j + 1;
    }
    assert(timestamp@.subrange(0, timestamp@.len() as int) =~= timestamp@);
    assert(body@.subrange(0, body@.len() as int) =~= body@);
    out
}

/// The platform's public key, against which requests are authenticated.
pub struct SignatureGate {
    public_key: Vec<u8>,
}

impl SignatureGate {
    /// The key bytes.
    pub closed spec fn key(&self) -> Seq<u8> {
        self.public_key@
    }

    /// The key is exactly 32 bytes long.
    pub open spec fn wf(&self) -> bool {
        self.key().len() == PUBLIC_KEY_LEN
    }

    /// A gate for the public key given as lower-case hex text; `None` unless the text
    /// encodes exactly 32 bytes.
    pub fn from_hex(key_hex: &Vec<u8>) -> (r: Option<SignatureGate>)
        ensures
            match r {
                Some(g) => g.wf() && hex_decode(key_hex@) == Some(g.key()),
                None => !(hex_decode(key_hex@) matches Some(k) && k.len() == PUBLIC_KEY_LEN),
            },
    {
        match decode_hex(key_hex) {
            Some(k) => if k.len() == PUBLIC_KEY_LEN {
                Some(SignatureGate { public_key: k })
            } else {
                None
            },
            None => None,
        }
    }

    /// Authenticates a request from its two headers and its raw body.
    pub fn verify_request(
        &self,
        signature: &Option<Vec<u8>>,
        timestamp: &Option<Vec<u8>>,
        body: &Vec<u8>,
    ) -> (r: Result<(), GateError>)
        requires
            self.wf(),
        ensures
            r == gate_verdict(self.key(), opt_bytes(*signature), opt_bytes(*timestamp), body@),
    {
        match signature {
            None => Err(GateError::MissingSignature),
            Some(sig_hex) => match timestamp {
                None => Err(GateError::MissingTimestamp),
                Some(ts) => match decode_hex(sig_hex) {
                    None => Err(GateError::MalformedSignature),
                    Some(sig) => {
                        if sig.len() != SIGNATURE_LEN {
                            Err(GateError::MalformedSignature)
                        } else {
                            let message = signed_message(ts, body);
                            if verify_ed25519(&self.public_key, &message, &sig) {
                                Ok(())
                            } else {
                                Err(GateError::BadSignature)
                            }
                        }
                    },
                },
            },
        }
    }
}

} // verus!
