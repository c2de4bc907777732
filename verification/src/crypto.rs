//! Hexadecimal text, Keccak hashes and secp256k1 keys.

use vstd::prelude::*;

use k256::ecdsa::signature::hazmat::PrehashSigner;
use sha3::Digest;

verus! {

/// The hexadecimal digit, in lower case, for a number below sixteen.
pub open spec fn hex_digit(d: int) -> char {
    if d < 10 {
        (48 + d) as char
    } else {
        (87 + d) as char
    }
}

/// The value of a hexadecimal digit in either case.
pub open spec fn digit_value(c: char) -> Option<int> {
    if '0' <= c && c <= '9' {
        Some(c as int - 48)
    } else if 'a' <= c && c <= 'f' {
        Some(c as int - 87)
    } else if 'A' <= c && c <= 'F' {
        Some(c as int - 55)
    } else {
        None
    }
}

/// Bytes in hexadecimal, two lower-case digits for each.
pub open spec fn hex_text(b: Seq<u8>) -> Seq<char>
    decreases b.len(),
{
    if b.len() == 0 {
        Seq::empty()
    } else {
        hex_text(b.drop_last()).push(hex_digit(b.last() as int / 16)).push(
            hex_digit(b.last() as int % 16),
        )
    }
}

/// The bytes that a text writes in hexadecimal; `None` where a character is no hexadecimal digit
/// or the last one has no partner.
pub open spec fn hex_value(s: Seq<char>) -> Option<Seq<u8>>
    decreases s.len(),
{
    if s.len() == 0 {
        Some(Seq::empty())
    } else if s.len() == 1 {
        None
    } else {
        match (
            hex_value(s.take(s.len() - 2)),
            digit_value(s[s.len() - 2]),
            digit_value(s[s.len() - 1]),
        ) {
            (Some(front), Some(high), Some(low)) => Some(front.push((high * 16 + low) as u8)),
            _ => None,
        }
    }
}

/// The number that bytes write, the most significant one first.
pub open spec fn big_endian(b: Seq<u8>) -> int
    decreases b.len(),
{
    if b.len() == 0 {
        0
    } else {
        big_endian(b.drop_last()) * 256 + b.last()
    }
}

/// The order of the secp256k1 group.
pub open spec fn group_order() -> int {
    0xffff_ffff_ffff_ffff_ffff_ffff_ffff_fffe_baae_dce6_af48_a03b_bfd2_5e8c_d036_4141int
}

/// Whether bytes are a secp256k1 private key: 24 to 32 of them, for a number that is not zero and
/// below the order of the group.
pub open spec fn is_key(b: Seq<u8>) -> bool {
    24 <= b.len() <= 32 && 0 < big_endian(b) < group_order()
}

/// The Keccak-256 hash of some bytes.
pub uninterp spec fn keccak(b: Seq<u8>) -> Seq<u8>;

/// The public key of a private key, in the uncompressed form.
pub uninterp spec fn public_of(key: Seq<u8>) -> Seq<u8>;

/// What `hex::decode` says is wrong with a text.
pub uninterp spec fn hex_fault(s: Seq<char>) -> Seq<char>;

/// The public key, in the uncompressed form, that `k256::ecdsa::VerifyingKey::recover_from_prehash`
/// recovers from a hash, a signature of it and the recovery id.
pub uninterp spec fn recovered(hash: Seq<u8>, sig: Seq<u8>, recovery_id: u8) -> Option<Seq<u8>>;

/// The signature of a hash with a private key, made without chance: the two numbers, and the
/// recovery id.
pub uninterp spec fn signature_of(key: Seq<u8>, hash: Seq<u8>) -> Option<(Seq<u8>, u8)>;

/// Calls `hex::encode`, which writes every byte as two lower-case digits.
#[verifier::external_body]
pub(crate) fn to_hex(b: &[u8]) -> (r: String)
    ensures
        r@ == hex_text(b@),
{
    hex::encode(b)
}

/// Calls `hex::decode`, which takes digits in either case and nothing else, in pairs. The error is
/// in the words of `hex::FromHexError`, and is a function of the text.
#[verifier::external_body]
pub(crate) fn from_hex(s: &str) -> (r: Result<Vec<u8>, String>)
    ensures
        match r {
            Ok(b) => hex_value(s@) == Some(b@),
            Err(e) => hex_value(s@) is None && e@ == hex_fault(s@),
        },
{
    hex::decode(s).map_err(|e| e.to_string())
}

/// Calls `sha3::Keccak256::digest`. The result is a function of the bytes, and 32 bytes long.
#[verifier::external_body]
pub(crate) fn keccak256(b: &[u8]) -> (r: Vec<u8>)
    ensures
        r@ == keccak(b@),
        r@.len() == 32,
{
    sha3::Keccak256::digest(b).to_vec()
}

/// Calls `k256::ecdsa::SigningKey::from_slice`, which takes private keys and nothing else. Its
/// error has no details: in words it is always the same.
#[verifier::external_body]
pub(crate) fn check_key(b: &[u8]) -> (r: Result<(), String>)
    ensures
        r is Ok <==> is_key(b@),
        r matches Err(e) ==> e@ == "signature error"@,
{
    match k256::ecdsa::SigningKey::from_slice(b) {
        Ok(_) => Ok(()),
        Err(e) => Err(e.to_string()),
    }
}

/// Calls `sign_prehash` of the `k256::ecdsa::SigningKey` that is made from the bytes. The result
/// is a function of key and hash: the nonce is derived from them. A signature has 64 bytes, and a
/// recovery id is at most three. From the hash, the signature and the id, `recover_from_prehash`
/// recovers the public key of the signer. The error has no details: in words it is always the
/// same. It is not said when signing succeeds: it fails for nonces that give a zero.
#[verifier::external_body]
pub(crate) fn sign(key: &[u8], hash: &[u8]) -> (r: Result<(Vec<u8>, u8), String>)
    ensures
        match r {
            Ok(p) => signature_of(key@, hash@) == Some((p.0@, p.1)) && p.0@.len() == 64 && p.1 <= 3
                && recovered(hash@, p.0@, p.1) == Some(public_of(key@)),
            Err(e) => signature_of(key@, hash@) is None && e@ == "signature error"@,
        },
{
    let signer = k256::ecdsa::SigningKey::from_slice(key).map_err(|e| e.to_string())?;
    let made: Result<(k256::ecdsa::Signature, k256::ecdsa::RecoveryId), k256::ecdsa::Error> =
        signer.sign_prehash(hash);
    let (sig, id) = made.map_err(|e| e.to_string())?;
    Ok((sig.to_bytes().to_vec(), id.to_byte()))
}

/// Calls `verifying_key` and `to_encoded_point` of the `k256::ecdsa::SigningKey` that is made from
/// the bytes, without compression. The result is a function of the key: 65 bytes, of which the
/// first tells the form.
#[verifier::external_body]
pub(crate) fn public_key(key: &[u8]) -> (r: Result<Vec<u8>, String>)
    ensures
        r is Ok <==> is_key(key@),
        r matches Ok(p) ==> p@ == public_of(key@) && p@.len() == 65,
        r matches Err(e) ==> e@ == "signature error"@,
{
    let signer = k256::ecdsa::SigningKey::from_slice(key).map_err(|e| e.to_string())?;
    Ok(signer.verifying_key().to_encoded_point(false).as_bytes().to_vec())
}

/// Hexadecimal text has two digits for each byte.
pub proof fn lemma_hex_text_len(b: Seq<u8>)
    ensures
        hex_text(b).len() == 2 * b.len(),
    decreases b.len(),
{
    if b.len() > 0 {
        lemma_hex_text_len(b.drop_last());
    }
}

/// Reading the hexadecimal text of some bytes gives them back.
pub proof fn lemma_hex_read_back(b: Seq<u8>)
    ensures
        hex_value(hex_text(b)) == Some(b),
    decreases b.len(),
{
    if b.len() > 0 {
        let front = b.drop_last();
        lemma_hex_read_back(front);
        lemma_hex_text_len(front);
        let t = hex_text(b);
        let high = b.last() as int / 16;
        let low = b.last() as int % 16;
        assert(t.take(t.len() - 2) =~= hex_text(front));
        assert(t[t.len() - 2] == hex_digit(high));
        assert(t[t.len() - 1] == hex_digit(low));
        assert(digit_value(hex_digit(high)) == Some(high));
        assert(digit_value(hex_digit(low)) == Some(low));
        assert(front.push(b.last()) =~= b);
    }
}

} // verus!
