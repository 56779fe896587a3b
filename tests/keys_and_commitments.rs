use bitcoin::hashes::Hash as _;
use op_rand::commitment::{second_rank_commitment, Commitments, FirstRankCommitment, ThirdRankCommitment};
use op_rand::crypto::{CryptoError, PublicKey, SecretKey};

const ORDER: [u8; 32] = [
    0xFF, 0xFF, 0xFF, 0xFF, 0xFF, 0xFF, 0xFF, 0xFF, 0xFF, 0xFF, 0xFF, 0xFF, 0xFF, 0xFF, 0xFF, 0xFE,
    0xBA, 0xAE, 0xDC, 0xE6, 0xAF, 0x48, 0xA0, 0x3B, 0xBF, 0xD2, 0x5E, 0x8C, 0xD0, 0x36, 0x41, 0x41,
];

fn scalar(v: u8) -> [u8; 32] {
    let mut b = [0u8; 32];
    b[31] = v;
    b
}

fn sk(v: u8) -> SecretKey {
    SecretKey::from_bytes(scalar(v)).unwrap()
}

fn secp_public(bytes: [u8; 32]) -> [u8; 33] {
    let s = secp256k1::SecretKey::from_slice(&bytes).unwrap();
    s.public_key(secp256k1::SECP256K1).serialize()
}

#[test]
fn secret_key_range() {
    assert!(SecretKey::from_bytes([0u8; 32]).is_none());
    assert!(SecretKey::from_bytes(ORDER).is_none());
    let mut below = ORDER;
    below[31] -= 1;
    assert!(SecretKey::from_bytes(below).is_some());
    assert_eq!(sk(7).secret_bytes(), scalar(7));
}

#[test]
fn public_key_matches_secp() {
    let pk = sk(5).public_key();
    assert_eq!(pk.serialize(), secp_public(scalar(5)));
    assert_eq!(pk.to_vec(), secp_public(scalar(5)).to_vec());
    assert!(PublicKey::from_bytes(pk.serialize()).is_some());
    assert!(PublicKey::from_bytes([0u8; 33]).is_none());
}

#[test]
fn uncompressed_encoding_reads_as_compressed() {
    let s = secp256k1::SecretKey::from_slice(&scalar(9)).unwrap();
    let p = s.public_key(secp256k1::SECP256K1);
    let k = PublicKey::from_slice(&p.serialize_uncompressed()).unwrap();
    assert_eq!(k.serialize(), p.serialize());
}

#[test]
fn key_combination_round_trip() {
    for (a, b) in [(1u8, 2u8), (17, 200), (99, 99)] {
        let sum = sk(a).add_tweak(&sk(b)).unwrap();
        let combined = sk(a).public_key().combine(&sk(b).public_key()).unwrap();
        assert_eq!(combined.serialize(), sum.public_key().serialize());
        assert_eq!(sum.secret_bytes(), scalar(a + b));
    }
}

#[test]
fn secret_sum_wraps_modulo_order() {
    let mut minus_one = ORDER;
    minus_one[31] -= 1;
    let a = SecretKey::from_bytes(minus_one).unwrap();
    assert_eq!(a.add_tweak(&sk(2)).unwrap().secret_bytes(), scalar(1));
    assert_eq!(a.add_tweak(&sk(1)).unwrap_err(), CryptoError::InvalidTweak);
}

#[test]
fn opposite_points_do_not_combine() {
    let p = sk(3).public_key();
    let n = p.negate();
    assert_ne!(n.serialize(), p.serialize());
    assert_eq!(p.combine(&n).unwrap_err(), CryptoError::InvalidPublicKeySum);
}

#[test]
fn generated_commitments_derive_third_rank() {
    for _ in 0..4 {
        let c = Commitments::generate().unwrap();
        for i in 0..2 {
            let (_, first_pk) = c.first_rank_commitments()[i].inner();
            let hash = bitcoin::hashes::sha256::Hash::hash(&first_pk.serialize()).to_byte_array();
            assert_eq!(c.third_rank_commitments()[i].inner().serialize(), secp_public(hash));
        }
    }
}

#[test]
fn commitments_from_fixed_first_rank() {
    let a = FirstRankCommitment::from_secret_key(sk(11));
    let b = FirstRankCommitment::from_secret_key(sk(12));
    let c = Commitments::from_first_rank([a, b]).unwrap();
    let (secret, public) = c.pick_first_rank_commitment(1).unwrap().inner();
    assert_eq!(secret.secret_bytes(), scalar(12));
    assert_eq!(public.serialize(), secp_public(scalar(12)));
    let second = second_rank_commitment(&public).unwrap();
    let expected = bitcoin::hashes::sha256::Hash::hash(&secp_public(scalar(12))).to_byte_array();
    assert_eq!(second.secret_bytes(), expected);
    assert_eq!(c.pick_third_rank_commitment(1).unwrap().inner().serialize(), secp_public(expected));
    assert!(c.pick_first_rank_commitment(2).is_none());
    assert!(c.pick_third_rank_commitment(2).is_none());
}

#[test]
fn random_picks_are_members() {
    let c = Commitments::generate().unwrap();
    let firsts: Vec<[u8; 33]> = c.first_rank_commitments().iter().map(|f| f.inner().1.serialize()).collect();
    let thirds: Vec<[u8; 33]> = c.third_rank_commitments().iter().map(|t| t.inner().serialize()).collect();
    for _ in 0..8 {
        let f = c.pick_random_first_rank_commitment().unwrap();
        assert!(firsts.contains(&f.inner().1.serialize()));
        let t = c.pick_random_third_rank_commitment().unwrap();
        assert!(thirds.contains(&t.inner().serialize()));
    }
}

#[test]
fn commitment_tweaks() {
    let first = FirstRankCommitment::from_secret_key(sk(4));
    let tweaked = first.add_tweak(&sk(6)).unwrap();
    assert_eq!(tweaked.secret_bytes(), scalar(10));
    let combined = first.combine(&sk(6).public_key()).unwrap();
    assert_eq!(combined.serialize(), secp_public(scalar(10)));
    let third = ThirdRankCommitment::from_public_key(sk(4).public_key());
    assert_eq!(third.combine(&sk(6).public_key()).unwrap().serialize(), secp_public(scalar(10)));
}
