use hex::FromHex;
use vstd::array::*;
use vstd::prelude::*;

verus! {

/// What is sent to the signing service: the payload to sign, the derivation
/// path that selects the key, and the key version.
pub struct SignRequest {
    pub payload: [u8; 32],
    pub path: String,
    pub key_version: u32,
}

impl SignRequest {
    pub fn new(payload: [u8; 32], path: String, key_version: u32) -> (r: Self)
        ensures
            r.payload@ == payload@,
            r.path@ == path@,
            r.key_version == key_version,
    {
        SignRequest { payload, path, key_version }
    }
}

/// The curve point `R` of a signature, as the signing service writes it: a
/// one-byte parity prefix followed by the 32-byte x-coordinate, in hex.
pub struct AffinePoint {
    pub affine_point: String,
}

/// The scalar `s` of a signature, as 32 bytes in hex.
pub struct Scalar {
    pub scalar: String,
}

/// The signing service's answer to a `SignRequest`.
pub struct SignResult {
    pub big_r: AffinePoint,
    pub s: Scalar,
    pub recovery_id: u8,
}

/// Why a signing service answer could not be turned into a signature.
#[derive(Debug, PartialEq, Eq, Structural)]
pub enum SignatureError {
    /// `big_r` is not 66 hex digits, or `s` is not 64 hex digits.
    HexDecode,
}

pub open spec fn is_hex_digit(c: char) -> bool {
    ('0' <= c && c <= '9') || ('a' <= c && c <= 'f') || ('A' <= c && c <= 'F')
}

/// The value of one hex digit, in either case.
pub open spec fn hex_digit_value(c: char) -> int {
    if '0' <= c && c <= '9' {
        c as int - '0' as int
    } else if 'a' <= c && c <= 'f' {
        c as int - 'a' as int + 10
    } else {
        c as int - 'A' as int + 10
    }
}

/// `s` is an even number of hex digits.
pub open spec fn hex_decodes(s: Seq<char>) -> bool {
    s.len() % 2 == 0 && forall|i: int| 0 <= i < s.len() ==> is_hex_digit(#[trigger] s[i])
}

/// The bytes that a string of hex digits spells, two digits per byte, the
/// high digit first.
pub open spec fn hex_decoded(s: Seq<char>) -> Seq<u8> {
    Seq::new(
        (s.len() / 2) as nat,
        |i: int| (16 * hex_digit_value(s[2 * i]) + hex_digit_value(s[2 * i + 1])) as u8,
    )
}

/// The 65-byte signature made of the decoded `R` (prefix byte, then x) and
/// `s`: x, then s, then the prefix byte.
pub open spec fn signature_from_parts(big_r: Seq<u8>, s: Seq<u8>) -> Seq<u8> {
    big_r.subrange(1, 33) + s + seq![big_r[0]]
}

/// The signature that a service answer stands for, if its two hex fields
/// have the lengths of a point and a scalar.
pub open spec fn assembled_signature(big_r: Seq<char>, s: Seq<char>) -> Option<Seq<u8>> {
    if big_r.len() == 66 && hex_decodes(big_r) && s.len() == 64 && hex_decodes(s) {
        Some(signature_from_parts(hex_decoded(big_r), hex_decoded(s)))
    } else {
        None
    }
}

/// Relies on hex's `FromHex for Vec<u8>`: it accepts an even number of hex
/// digits of either case and turns each pair into one byte, high digit first.
#[verifier::external_body]
fn decode_hex(s: &str) -> (r: Option<Vec<u8>>)
    ensures
        r is Some <==> hex_decodes(s@),
        r matches Some(b) ==> b@ == hex_decoded(s@),
{
    Vec::<u8>::from_hex(s).ok()
}

impl SignResult {
    /// The 65-byte secp256k1 signature of this answer: the x-coordinate of
    /// `R`, then `s`, then the parity prefix of `R`. `recovery_id` is not used.
    pub fn to_signature(&self) -> (r: Result<[u8; 65], SignatureError>)
        ensures
            match assembled_signature(self.big_r.affine_point@, self.s.scalar@) {
                Some(sig) => r matches Ok(bytes) && bytes@ == sig,
                None => r == Err::<[u8; 65], SignatureError>(SignatureError::HexDecode),
            },
    {
        let big_r = self.big_r.affine_point.as_str();
        let s = self.s.scalar.as_str();
        let r_bytes = match decode_hex(big_r) {
            Some(b) => b,
            None => return Err(SignatureError::HexDecode),
        };
        let s_bytes = match decode_hex(s) {
            Some(b) => b,
            None => return Err(SignatureError::HexDecode),
        };
        if r_bytes.len() != 33 || s_bytes.len() != 32 {
            return Err(SignatureError::HexDecode);
        }
        let mut sig = [0u8; 65];
        let mut i: usize = 0;
        while i < 32
            invariant
                0 <= i <= 32,
                r_bytes@.len() == 33,
                s_bytes@.len() == 32,
                sig@.len() == 65,
                forall|j: int| 0 <= j < i ==> sig@[j] == r_bytes@[j + 1],
                forall|j: int| 0 <= j < i ==> sig@[32 + j] == s_bytes@[j],
            decreases 32 - i,
        {
            sig.set(i, r_bytes[i + 1]);
            sig.set(32 + i, s_bytes[i]);
            i = i + 1;
        }
        sig.set(64, r_bytes[0]);
        proof {
            assert(self.big_r.affine_point@.len() == 66);
            assert(self.s.scalar@.len() == 64);
            assert(sig@ =~= signature_from_parts(r_bytes@, s_bytes@));
        }
        Ok(sig)
    }
}


/// The lower-case hex digit of a value below 16.
pub open spec fn hex_digit_char(v: int) -> char {
    if v < 10 {
        (v + '0' as int) as char
    } else {
        (v - 10 + 'a' as int) as char
    }
}

/// Bytes in lower-case hex, two digits per byte, the high digit first.
pub open spec fn hex_encoded(b: Seq<u8>) -> Seq<char> {
    Seq::new(
        2 * b.len(),
        |i: int| if i % 2 == 0 { hex_digit_char(b[i / 2] as int / 16) } else { hex_digit_char(b[i / 2] as int % 16) },
    )
}

proof fn lemma_hex_round_trip(b: Seq<u8>)
    ensures
        hex_decodes(hex_encoded(b)),
        hex_decoded(hex_encoded(b)) == b,
{
    let h = hex_encoded(b);
    assert forall|i: int| 0 <= i < h.len() implies is_hex_digit(#[trigger] h[i]) by {}
    let d = hex_decoded(h);
    assert forall|i: int| 0 <= i < b.len() implies d[i] == b[i] by {
        assert(h[2 * i] == hex_digit_char(b[i] as int / 16));
        assert(h[2 * i + 1] == hex_digit_char(b[i] as int % 16));
        assert(hex_digit_value(h[2 * i]) == b[i] as int / 16);
        assert(hex_digit_value(h[2 * i + 1]) == b[i] as int % 16);
    }
    assert(d =~= b);
}

/// A 65-byte signature written out as a service answer (the prefix byte and
/// x as `R`, then `s`, in hex) is assembled back into the same 65 bytes.
pub proof fn lemma_signature_round_trip(sig: Seq<u8>)
    requires
        sig.len() == 65,
    ensures
        assembled_signature(
            hex_encoded(seq![sig[64]] + sig.subrange(0, 32)),
            hex_encoded(sig.subrange(32, 64)),
        ) == Some(sig),
{
    let r = seq![sig[64]] + sig.subrange(0, 32);
    let s = sig.subrange(32, 64);
    lemma_hex_round_trip(r);
    lemma_hex_round_trip(s);
    assert(signature_from_parts(r, s) =~= sig);
}

} // verus!
