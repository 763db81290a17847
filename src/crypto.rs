use vstd::prelude::*;
use vstd::string::*;

use crate::matching::opt_view;

verus! {

/// The uncompressed SEC1 encoding (65 bytes, `0x04` first) of the public key of a
/// 32-byte secret, or `None` where the bytes are no valid secp256k1 secret key.
pub uninterp spec fn public_key_of(secret: Seq<u8>) -> Option<Seq<u8>>;

/// The Keccak-256 digest of a byte string.
pub uninterp spec fn keccak_of(data: Seq<u8>) -> Seq<u8>;

pub open spec fn hex_digit(n: int) -> char {
    seq!['0', '1', '2', '3', '4', '5', '6', '7', '8', '9', 'a', 'b', 'c', 'd', 'e', 'f'][n]
}

/// Two lower-case hex digits per byte, high nibble first.
pub open spec fn hex_of(b: Seq<u8>) -> Seq<char> {
    Seq::new(
        2 * b.len(),
        |i: int|
            if i % 2 == 0 {
                hex_digit(b[i / 2] as int / 16)
            } else {
                hex_digit(b[i / 2] as int % 16)
            },
    )
}

/// The address of an uncompressed public key: `0x`, then the hex of the last 20
/// bytes of the Keccak-256 digest of the key without its leading format byte.
pub open spec fn address_of_public_key(pk: Seq<u8>) -> Seq<char> {
    seq!['0', 'x'] + hex_of(keccak_of(pk.subrange(1, pk.len() as int)).subrange(12, 32))
}

/// The address of a secret key, if the key is valid.
pub open spec fn address_of_secret(secret: Seq<u8>) -> Option<Seq<char>> {
    match public_key_of(secret) {
        Some(pk) => Some(address_of_public_key(pk)),
        None => None,
    }
}

/// A fresh secret key drawn from the operating system's random source.
///
/// Relies on `secp256k1::SecretKey::new` with `rand::rngs::OsRng`, which draws
/// until the bytes form a valid key, and on `SecretKey::secret_bytes`.
#[verifier::external_body]
pub fn generate_private_key() -> (r: [u8; 32])
    ensures
        public_key_of(r@) is Some,
{
    secp256k1::SecretKey::new(&mut rand::rngs::OsRng).secret_bytes()
}

/// Relies on `secp256k1::SecretKey::from_slice`, which refuses invalid secrets, and on
/// `PublicKey::from_secret_key` followed by `serialize_uncompressed`.
#[verifier::external_body]
fn derive_public_key(secret: &[u8; 32]) -> (r: Option<[u8; 65]>)
    ensures
        match r {
            Some(pk) => public_key_of(secret@) == Some(pk@),
            None => public_key_of(secret@) is None,
        },
{
    match secp256k1::SecretKey::from_slice(secret) {
        Ok(sk) => {
            let secp = secp256k1::Secp256k1::signing_only();
            Some(secp256k1::PublicKey::from_secret_key(&secp, &sk).serialize_uncompressed())
        },
        Err(_) => None,
    }
}

/// Relies on tiny_keccak's `Keccak::v256`, fed `data` once and finalized into 32 bytes.
#[verifier::external_body]
fn keccak256(data: &[u8]) -> (r: [u8; 32])
    ensures
        r@ == keccak_of(data@),
{
    let mut hasher = tiny_keccak::Keccak::v256();
    tiny_keccak::Hasher::update(&mut hasher, data);
    let mut out = [0u8; 32];
    tiny_keccak::Hasher::finalize(hasher, &mut out);
    out
}

/// Relies on `hex::encode`, which writes each byte as two lower-case digits.
#[verifier::external_body]
pub(crate) fn hex_encode(data: &[u8]) -> (r: String)
    ensures
        r@ == hex_of(data@),
{
    hex::encode(data)
}

/// The bytes of `a` from `from` up to `to`.
fn copy_range(a: &[u8], from: usize, to: usize) -> (r: Vec<u8>)
    requires
        from <= to <= a@.len(),
    ensures
        r@ == a@.subrange(from as int, to as int),
{
    let mut r: Vec<u8> = Vec::new();
    let mut i: usize = from;
    while i < to
        invariant
            from <= i <= to <= a@.len(),
            r@ == a@.subrange(from as int, i as int),
        decreases to - i,
    {
        r.push(a[i]);
        i = i + 1;
        assert(r@ =~= a@.subrange(from as int, i as int));
    }
    r
}

/// The address of an uncompressed public key.
pub fn public_key_to_address(public_key: &[u8; 65]) -> (r: String)
    ensures
        r@ == address_of_public_key(public_key@),
{
    let body = copy_range(public_key, 1, 65);
    let digest = keccak256(body.as_slice());
    let tail = copy_range(&digest, 12, 32);
    let digits = hex_encode(tail.as_slice());
    let mut out = String::from_str("0x");
    proof {
        reveal_strlit("0x");
    }
    out.append(digits.as_str());
    assert(out@ =~= address_of_public_key(public_key@));
    out
}

/// The `0x`-prefixed address of a secret key, or `None` where the secret is invalid.
pub fn private_key_to_address(private_key: &[u8; 32]) -> (r: Option<String>)
    ensures
        opt_view(r) == address_of_secret(private_key@),
{
    match derive_public_key(private_key) {
        Some(pk) => Some(public_key_to_address(&pk)),
        None => None,
    }
}

} // verus!
