//! Keys of the secp256k1 curve and the hash functions the protocol uses.
//!
//! Secret keys are held as their 32 big-endian bytes, public keys as their
//! 33-byte compressed encoding. The curve arithmetic and the hash functions are
//! computed by `secp256k1` and `bitcoin_hashes`; what they return is named here
//! by spec functions, and stated exactly where it takes a few lines. The
//! wrappers rebuild `secp256k1` keys from these bytes; the invariants of the
//! two key types are what makes that rebuilding succeed.

use secp256k1::rand::Rng;
use vstd::prelude::*;

verus! {

/// Order of the secp256k1 group.
pub open spec fn curve_order() -> nat {
    0xFFFF_FFFF_FFFF_FFFF_FFFF_FFFF_FFFF_FFFE * (0x1_0000_0000_0000_0000 * 0x1_0000_0000_0000_0000)
        + 0xBAAE_DCE6_AF48_A03B_BFD2_5E8C_D036_4141
}

/// Big-endian value of a byte string.
pub open spec fn be_value(s: Seq<u8>) -> nat
    decreases s.len(),
{
    if s.len() == 0 {
        0
    } else {
        be_value(s.drop_last()) * 256 + s.last() as nat
    }
}

/// The `n` low bytes of `v`, big-endian.
pub open spec fn be_bytes(v: nat, n: nat) -> Seq<u8>
    decreases n,
{
    if n == 0 {
        Seq::empty()
    } else {
        be_bytes(v / 256, (n - 1) as nat).push((v % 256) as u8)
    }
}

/// A 32-byte string is a secret key when its value is a non-zero scalar.
pub open spec fn is_valid_secret(s: Seq<u8>) -> bool {
    s.len() == 32 && 0 < be_value(s) < curve_order()
}

/// The scalar sum of two secret keys, or `None` where it is zero.
pub open spec fn secret_sum(a: Seq<u8>, b: Seq<u8>) -> Option<Seq<u8>> {
    let v = (be_value(a) + be_value(b)) % curve_order();
    if v == 0 {
        None
    } else {
        Some(be_bytes(v, 32))
    }
}

/// SHA-256 of a byte string.
pub uninterp spec fn sha256_of(data: Seq<u8>) -> Seq<u8>;

/// RIPEMD-160 of SHA-256 of a byte string.
pub uninterp spec fn hash160_of(data: Seq<u8>) -> Seq<u8>;

/// The compressed encoding of the point that `b` encodes (in compressed,
/// uncompressed or hybrid form), or `None` where `b` encodes no point.
pub uninterp spec fn parsed_point(b: Seq<u8>) -> Option<Seq<u8>>;

/// Compressed encoding of `s * G` for a secret key `s`.
pub uninterp spec fn pubkey_of(s: Seq<u8>) -> Seq<u8>;

/// Compressed encoding of the sum of two points, or `None` at infinity.
pub uninterp spec fn key_sum(a: Seq<u8>, b: Seq<u8>) -> Option<Seq<u8>>;

/// Compressed encoding of the negation of a point.
pub uninterp spec fn key_negation(a: Seq<u8>) -> Seq<u8>;

/// DER encoding of the deterministic (RFC 6979) ECDSA signature of a 32-byte
/// digest under a secret key.
pub uninterp spec fn ecdsa_der_of(s: Seq<u8>, digest: Seq<u8>) -> Seq<u8>;

/// Whether `der` parses as a DER-encoded ECDSA signature that verifies for
/// the 32-byte `digest` under the public key `key`.
pub uninterp spec fn ecdsa_verifies(key: Seq<u8>, digest: Seq<u8>, der: Seq<u8>) -> bool;

/// Compact (64-byte `r || s`) encoding of the deterministic ECDSA signature
/// of a 32-byte digest under a secret key.
pub uninterp spec fn ecdsa_compact_of(s: Seq<u8>, digest: Seq<u8>) -> Seq<u8>;

/// Uncompressed encoding `04 || x || y` of a point given in compressed form.
pub uninterp spec fn uncompressed_of(p: Seq<u8>) -> Seq<u8>;

/// A secret key: a non-zero scalar below the curve order.
#[derive(Clone, Copy, Debug)]
pub struct SecretKey {
    bytes: [u8; 32],
}

impl View for SecretKey {
    type V = Seq<u8>;

    closed spec fn view(&self) -> Seq<u8> {
        self.bytes@
    }
}

impl SecretKey {
    /// Every secret key is a valid scalar.
    #[verifier::type_invariant]
    pub open spec fn inv(&self) -> bool {
        is_valid_secret(self@)
    }

    /// Reads a secret key from its 32 big-endian bytes.
    pub fn from_bytes(bytes: [u8; 32]) -> (r: Option<SecretKey>)
        ensures
            r.is_some() <==> is_valid_secret(bytes@),
            r.is_some() ==> r.unwrap()@ == bytes@,
    {
        if secret_bytes_valid(&bytes) {
            Some(SecretKey { bytes })
        } else {
            None
        }
    }

    /// The 32 big-endian bytes of the key.
    pub fn secret_bytes(&self) -> (r: [u8; 32])
        ensures
            r@ == self@,
    {
        self.bytes
    }

    /// The public key `s * G`.
    pub fn public_key(&self) -> (r: PublicKey)
        ensures
            r@ == pubkey_of(self@),
    {
        public_key_of(self)
    }

    /// The sum of two secret keys modulo the curve order; an error where it
    /// is zero.
    pub fn add_tweak(&self, tweak: &SecretKey) -> (r: Result<SecretKey, CryptoError>)
        ensures
            r.is_ok() <==> secret_sum(self@, tweak@).is_some(),
            r.is_ok() ==> secret_sum(self@, tweak@) == Some(r.unwrap()@),
            r.is_ok() ==> key_sum(pubkey_of(self@), pubkey_of(tweak@)) == Some(pubkey_of(r.unwrap()@)),
            r.is_err() ==> r->Err_0 == CryptoError::InvalidTweak,
            r.is_err() ==> key_sum(pubkey_of(self@), pubkey_of(tweak@)).is_none(),
    {
        add_secret_keys(self, tweak)
    }
}

/// A point of the curve, held as its compressed encoding.
#[derive(Clone, Copy, Debug)]
pub struct PublicKey {
    bytes: [u8; 33],
}

impl View for PublicKey {
    type V = Seq<u8>;

    closed spec fn view(&self) -> Seq<u8> {
        self.bytes@
    }
}

impl PublicKey {
    /// Every public key is the compressed encoding of a point.
    #[verifier::type_invariant]
    pub open spec fn inv(&self) -> bool {
        self@.len() == 33 && parsed_point(self@) == Some(self@)
    }

    /// Reads a public key from its compressed encoding.
    pub fn from_bytes(bytes: [u8; 33]) -> (r: Option<PublicKey>)
        ensures
            r.is_some() <==> parsed_point(bytes@).is_some(),
            r.is_some() ==> r.unwrap()@ == bytes@,
    {
        parse_point(&bytes)
    }

    /// Reads a public key from any encoding of a point.
    pub fn from_slice(data: &[u8]) -> (r: Option<PublicKey>)
        ensures
            r.is_some() <==> parsed_point(data@).is_some(),
            r.is_some() ==> parsed_point(data@) == Some(r.unwrap()@),
    {
        parse_point(data)
    }

    /// The compressed encoding of the key.
    pub fn serialize(&self) -> (r: [u8; 33])
        ensures
            r@ == self@,
    {
        self.bytes
    }

    /// The compressed encoding of the key, as a vector.
    pub fn to_vec(&self) -> (r: Vec<u8>)
        ensures
            r@ == self@,
    {
        proof {
            use_type_invariant(self);
        }
        let mut r: Vec<u8> = Vec::new();
        let mut i: usize = 0;
        while i < 33
            invariant
                i <= 33,
                self.bytes@.len() == 33,
                r@ == self.bytes@.subrange(0, i as int),
            decreases 33 - i,
        {
            r.push(self.bytes[i]);
            i = i + 1;
            assert(r@ =~= self.bytes@.subrange(0, i as int));
        }
        assert(r@ =~= self.bytes@);
        r
    }

    /// The sum of two points; an error where it is the point at infinity.
    pub fn combine(&self, other: &PublicKey) -> (r: Result<PublicKey, CryptoError>)
        ensures
            r.is_ok() <==> key_sum(self@, other@).is_some(),
            r.is_ok() ==> key_sum(self@, other@) == Some(r.unwrap()@),
            r.is_err() ==> r->Err_0 == CryptoError::InvalidPublicKeySum,
    {
        combine_keys(self, other)
    }

    /// The negated point.
    pub fn negate(&self) -> (r: PublicKey)
        ensures
            r@ == key_negation(self@),
    {
        negate_key(self)
    }

    /// Whether two keys are the same point.
    pub fn same_key(&self, other: &PublicKey) -> (r: bool)
        ensures
            r <==> self@ == other@,
    {
        proof {
            use_type_invariant(self);
            use_type_invariant(other);
        }
        let mut i: usize = 0;
        while i < 33
            invariant
                i <= 33,
                self.bytes@.len() == 33,
                other.bytes@.len() == 33,
                self.bytes@.subrange(0, i as int) == other.bytes@.subrange(0, i as int),
            decreases 33 - i,
        {
            if self.bytes[i] != other.bytes[i] {
                assert(self.bytes@[i as int] != other.bytes@[i as int]);
                return false;
            }
            i = i + 1;
            assert(self.bytes@.subrange(0, i as int) =~= other.bytes@.subrange(0, i as int));
        }
        assert(self.bytes@ =~= self.bytes@.subrange(0, 33));
        assert(other.bytes@ =~= other.bytes@.subrange(0, 33));
        true
    }
}

/// Errors of the curve arithmetic.
#[derive(Clone, Copy, Debug, PartialEq, Eq, Structural)]
pub enum CryptoError {
    /// Bytes that are no secret key.
    InvalidSecretKey,
    /// Bytes that are no point of the curve.
    InvalidPublicKey,
    /// Two points whose sum is the point at infinity.
    InvalidPublicKeySum,
    /// A scalar sum that is zero.
    InvalidTweak,
}

/// Relies on `secp256k1::SecretKey::from_slice`: it accepts 32 bytes exactly
/// when they encode a scalar in `1 .. n` (`secp256k1_ec_seckey_verify`).
#[verifier::external_body]
fn secret_bytes_valid(bytes: &[u8; 32]) -> (r: bool)
    ensures
        r <==> is_valid_secret(bytes@),
{
    secp256k1::SecretKey::from_slice(bytes).is_ok()
}

/// Relies on `secp256k1::PublicKey::from_slice` and `serialize`: the point
/// that the bytes encode, if any, in compressed form. A compressed encoding
/// is the one `serialize` gives back.
#[verifier::external_body]
fn parse_point(data: &[u8]) -> (r: Option<PublicKey>)
    ensures
        r.is_some() <==> parsed_point(data@).is_some(),
        r.is_some() ==> parsed_point(data@) == Some(r.unwrap()@),
        r.is_some() && data@.len() == 33 ==> r.unwrap()@ == data@,
{
    secp256k1::PublicKey::from_slice(data).ok().map(|p| PublicKey { bytes: p.serialize() })
}

/// Relies on `bitcoin_hashes::sha256::Hash::hash`.
#[verifier::external_body]
pub(crate) fn sha256(data: &[u8]) -> (r: [u8; 32])
    ensures
        r@ == sha256_of(data@),
{
    let h = <bitcoin::hashes::sha256::Hash as bitcoin::hashes::Hash>::hash(data);
    <bitcoin::hashes::sha256::Hash as bitcoin::hashes::Hash>::to_byte_array(h)
}

/// Relies on `bitcoin_hashes::hash160::Hash::hash` (RIPEMD-160 over SHA-256).
#[verifier::external_body]
pub(crate) fn hash160(data: &[u8]) -> (r: [u8; 20])
    ensures
        r@ == hash160_of(data@),
{
    let h = <bitcoin::hashes::hash160::Hash as bitcoin::hashes::Hash>::hash(data);
    <bitcoin::hashes::hash160::Hash as bitcoin::hashes::Hash>::to_byte_array(h)
}

/// Relies on `secp256k1::SecretKey::public_key`: the point `s * G`, which
/// serializes to a valid compressed encoding.
#[verifier::external_body]
pub(crate) fn public_key_of(secret: &SecretKey) -> (r: PublicKey)
    ensures
        r@ == pubkey_of(secret@),
{
    let sk = secp256k1::SecretKey::from_slice(&secret.bytes).unwrap();
    PublicKey { bytes: sk.public_key(secp256k1::SECP256K1).serialize() }
}

/// Relies on `secp256k1::PublicKey::combine`: the sum of two points, an error
/// where it is the point at infinity.
#[verifier::external_body]
pub(crate) fn combine_keys(a: &PublicKey, b: &PublicKey) -> (r: Result<PublicKey, CryptoError>)
    ensures
        r.is_ok() <==> key_sum(a@, b@).is_some(),
        r.is_ok() ==> key_sum(a@, b@) == Some(r.unwrap()@),
        r.is_err() ==> r->Err_0 == CryptoError::InvalidPublicKeySum,
{
    let pa = secp256k1::PublicKey::from_slice(&a.bytes).unwrap();
    let pb = secp256k1::PublicKey::from_slice(&b.bytes).unwrap();
    match pa.combine(&pb) {
        Ok(p) => Ok(PublicKey { bytes: p.serialize() }),
        Err(_) => Err(CryptoError::InvalidPublicKeySum),
    }
}

/// Relies on `secp256k1::PublicKey::negate`.
#[verifier::external_body]
pub(crate) fn negate_key(a: &PublicKey) -> (r: PublicKey)
    ensures
        r@ == key_negation(a@),
{
    let pa = secp256k1::PublicKey::from_slice(&a.bytes).unwrap();
    PublicKey { bytes: pa.negate(secp256k1::SECP256K1).serialize() }
}

/// Relies on `secp256k1::SecretKey::add_tweak`: the sum modulo the curve
/// order, an error where it is zero. The public key of the sum is the sum of
/// the public keys (`PublicKey::combine`), since `s -> s * G` is a group
/// homomorphism; a zero sum is the point at infinity, where `combine` fails.
#[verifier::external_body]
pub(crate) fn add_secret_keys(a: &SecretKey, b: &SecretKey) -> (r: Result<SecretKey, CryptoError>)
    ensures
        r.is_ok() <==> secret_sum(a@, b@).is_some(),
        r.is_ok() ==> secret_sum(a@, b@) == Some(r.unwrap()@),
        r.is_ok() ==> key_sum(pubkey_of(a@), pubkey_of(b@)) == Some(pubkey_of(r.unwrap()@)),
        r.is_err() ==> r->Err_0 == CryptoError::InvalidTweak,
        r.is_err() ==> key_sum(pubkey_of(a@), pubkey_of(b@)).is_none(),
{
    let sa = secp256k1::SecretKey::from_slice(&a.bytes).unwrap();
    let sb = secp256k1::SecretKey::from_slice(&b.bytes).unwrap();
    match sa.add_tweak(&secp256k1::Scalar::from(sb)) {
        Ok(s) => Ok(SecretKey { bytes: s.secret_bytes() }),
        Err(_) => Err(CryptoError::InvalidTweak),
    }
}

/// Relies on `secp256k1::Secp256k1::sign_ecdsa` (RFC 6979 nonces, so the
/// signature depends on the key and digest alone) and `serialize_der`. A
/// signature made with a key verifies under that key's public key.
#[verifier::external_body]
pub(crate) fn sign_digest(secret: &SecretKey, digest: &[u8; 32]) -> (r: Vec<u8>)
    ensures
        r@ == ecdsa_der_of(secret@, digest@),
        ecdsa_verifies(pubkey_of(secret@), digest@, r@),
{
    let sk = secp256k1::SecretKey::from_slice(&secret.bytes).unwrap();
    let msg = secp256k1::Message::from_digest(*digest);
    secp256k1::SECP256K1.sign_ecdsa(&msg, &sk).serialize_der().to_vec()
}

/// Relies on `secp256k1::ecdsa::Signature::from_der` and
/// `secp256k1::Secp256k1::verify_ecdsa`: false where the bytes are no DER
/// signature or the signature does not verify.
#[verifier::external_body]
pub(crate) fn verify_signature(key: &PublicKey, digest: &[u8; 32], der: &[u8]) -> (r: bool)
    ensures
        r == ecdsa_verifies(key@, digest@, der@),
{
    let pk = secp256k1::PublicKey::from_slice(&key.bytes).unwrap();
    let msg = secp256k1::Message::from_digest(*digest);
    match secp256k1::ecdsa::Signature::from_der(der) {
        Ok(sig) => secp256k1::SECP256K1.verify_ecdsa(&msg, &sig, &pk).is_ok(),
        Err(_) => false,
    }
}

/// Relies on `secp256k1::Secp256k1::sign_ecdsa` and `serialize_compact`.
#[verifier::external_body]
pub(crate) fn sign_digest_compact(secret: &SecretKey, digest: &[u8; 32]) -> (r: [u8; 64])
    ensures
        r@ == ecdsa_compact_of(secret@, digest@),
{
    let sk = secp256k1::SecretKey::from_slice(&secret.bytes).unwrap();
    let msg = secp256k1::Message::from_digest(*digest);
    secp256k1::SECP256K1.sign_ecdsa(&msg, &sk).serialize_compact()
}

/// Relies on `secp256k1::PublicKey::serialize_uncompressed`.
#[verifier::external_body]
pub(crate) fn serialize_uncompressed(key: &PublicKey) -> (r: [u8; 65])
    ensures
        r@ == uncompressed_of(key@),
{
    secp256k1::PublicKey::from_slice(&key.bytes).unwrap().serialize_uncompressed()
}

/// Relies on `secp256k1::SecretKey::new` with the thread-local generator,
/// which draws until it has a valid scalar.
#[verifier::external_body]
pub(crate) fn random_secret_key() -> (r: SecretKey) {
    SecretKey { bytes: secp256k1::SecretKey::new(&mut secp256k1::rand::thread_rng()).secret_bytes() }
}

/// Relies on `rand::Rng::gen_range` with the thread-local generator: an
/// index below `n`.
#[verifier::external_body]
pub(crate) fn random_index(n: usize) -> (r: usize)
    requires
        n > 0,
    ensures
        r < n,
{
    secp256k1::rand::thread_rng().gen_range(0..n)
}

} // verus!
