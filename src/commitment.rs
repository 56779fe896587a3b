//! The three ranks of commitments.
//!
//! A first-rank commitment is a random key pair of the challenger. Its
//! second rank is the SHA-256 of the first-rank public key, read as a secret
//! key; it is never stored. Its third rank is the public key of that secret,
//! and is shared with the acceptor.

use crate::crypto::{
    add_secret_keys, combine_keys, is_valid_secret, key_sum, public_key_of, pubkey_of,
    random_index, random_secret_key, secret_sum, sha256, sha256_of, CryptoError, PublicKey,
    SecretKey,
};
use vstd::prelude::*;

verus! {

/// Number of commitments of each rank in one protocol run.
pub const COMMITMENTS_COUNT: usize = 2;

/// The second-rank secret derived from a first-rank public key.
pub open spec fn second_rank_of(first_public: Seq<u8>) -> Seq<u8> {
    sha256_of(first_public)
}

/// The third-rank public key derived from a first-rank public key.
pub open spec fn third_rank_of(first_public: Seq<u8>) -> Seq<u8> {
    pubkey_of(second_rank_of(first_public))
}

/// The second-rank secret of a first-rank public key: its SHA-256 read as a
/// secret key, an error where that is no valid scalar.
pub fn second_rank_commitment(first_public: &PublicKey) -> (r: Result<SecretKey, CryptoError>)
    ensures
        r.is_ok() <==> is_valid_secret(second_rank_of(first_public@)),
        r.is_ok() ==> r.unwrap()@ == second_rank_of(first_public@),
        r.is_err() ==> r->Err_0 == CryptoError::InvalidSecretKey,
{
    let hash = sha256(&first_public.serialize());
    match SecretKey::from_bytes(hash) {
        Some(s) => Ok(s),
        None => Err(CryptoError::InvalidSecretKey),
    }
}

/// A first-rank commitment: a secret key of the challenger and its public key.
#[derive(Clone, Copy, Debug)]
pub struct FirstRankCommitment {
    secret_key: SecretKey,
    public_key: PublicKey,
}

impl FirstRankCommitment {
    pub closed spec fn secret_view(&self) -> Seq<u8> {
        self.secret_key@
    }

    pub closed spec fn public_view(&self) -> Seq<u8> {
        self.public_key@
    }

    /// The public key is the one of the secret key.
    #[verifier::type_invariant]
    pub open spec fn inv(&self) -> bool {
        self.public_view() == pubkey_of(self.secret_view())
    }

    /// The commitment of a secret key.
    pub fn from_secret_key(secret_key: SecretKey) -> (r: FirstRankCommitment)
        ensures
            r.secret_view() == secret_key@,
            r.public_view() == pubkey_of(secret_key@),
    {
        let public_key = public_key_of(&secret_key);
        FirstRankCommitment { secret_key, public_key }
    }

    /// The secret key and the public key.
    pub fn inner(&self) -> (r: (SecretKey, PublicKey))
        ensures
            r.0@ == self.secret_view(),
            r.1@ == self.public_view(),
    {
        (self.secret_key, self.public_key)
    }

    /// The sum of the commitment's secret key and `tweak`, modulo the curve
    /// order.
    pub fn add_tweak(&self, tweak: &SecretKey) -> (r: Result<SecretKey, CryptoError>)
        ensures
            r.is_ok() <==> secret_sum(self.secret_view(), tweak@).is_some(),
            r.is_ok() ==> secret_sum(self.secret_view(), tweak@) == Some(r.unwrap()@),
            r.is_ok() ==> key_sum(self.public_view(), pubkey_of(tweak@)) == Some(pubkey_of(r.unwrap()@)),
            r.is_err() ==> r->Err_0 == CryptoError::InvalidTweak,
            r.is_err() ==> key_sum(self.public_view(), pubkey_of(tweak@)).is_none(),
    {
        proof {
            use_type_invariant(self);
        }
        add_secret_keys(&self.secret_key, tweak)
    }

    /// The sum of the commitment's public key and `tweak`.
    pub fn combine(&self, tweak: &PublicKey) -> (r: Result<PublicKey, CryptoError>)
        ensures
            r.is_ok() <==> key_sum(self.public_view(), tweak@).is_some(),
            r.is_ok() ==> key_sum(self.public_view(), tweak@) == Some(r.unwrap()@),
            r.is_err() ==> r->Err_0 == CryptoError::InvalidPublicKeySum,
    {
        combine_keys(&self.public_key, tweak)
    }
}

/// A third-rank commitment: a public key derived from a second-rank secret.
#[derive(Clone, Copy, Debug)]
pub struct ThirdRankCommitment {
    public_key: PublicKey,
}

impl ThirdRankCommitment {
    pub closed spec fn public_view(&self) -> Seq<u8> {
        self.public_key@
    }

    /// The commitment of a public key, as received from the challenger.
    pub fn from_public_key(public_key: PublicKey) -> (r: ThirdRankCommitment)
        ensures
            r.public_view() == public_key@,
    {
        ThirdRankCommitment { public_key }
    }

    /// The public key.
    pub fn inner(&self) -> (r: PublicKey)
        ensures
            r@ == self.public_view(),
    {
        self.public_key
    }

    /// The sum of the commitment's public key and `tweak`.
    pub fn combine(&self, tweak: &PublicKey) -> (r: Result<PublicKey, CryptoError>)
        ensures
            r.is_ok() <==> key_sum(self.public_view(), tweak@).is_some(),
            r.is_ok() ==> key_sum(self.public_view(), tweak@) == Some(r.unwrap()@),
            r.is_err() ==> r->Err_0 == CryptoError::InvalidPublicKeySum,
    {
        combine_keys(&self.public_key, tweak)
    }
}

/// The commitments of one protocol run: two first-rank commitments and the
/// third-rank commitment of each.
#[derive(Clone, Copy, Debug)]
pub struct Commitments {
    first_rank_commitments: [FirstRankCommitment; 2],
    third_rank_commitments: [ThirdRankCommitment; 2],
}

impl Commitments {
    pub closed spec fn first_rank(&self, i: int) -> FirstRankCommitment {
        self.first_rank_commitments@[i]
    }

    pub closed spec fn third_rank(&self, i: int) -> ThirdRankCommitment {
        self.third_rank_commitments@[i]
    }

    /// Each third-rank commitment is derived from the first-rank commitment at
    /// the same place.
    #[verifier::type_invariant]
    pub open spec fn inv(&self) -> bool {
        forall|i: int|
            0 <= i < 2 ==> #[trigger] self.third_rank(i).public_view() == third_rank_of(
                self.first_rank(i).public_view(),
            )
    }

    /// The commitments of two first-rank commitments: an error where the
    /// second rank of either is no valid secret key.
    pub fn from_first_rank(first: [FirstRankCommitment; 2]) -> (r: Result<Commitments, CryptoError>)
        ensures
            r.is_ok() <==> (is_valid_secret(second_rank_of(first@[0].public_view()))
                && is_valid_secret(second_rank_of(first@[1].public_view()))),
            r.is_ok() ==> r.unwrap().first_rank(0) == first@[0] && r.unwrap().first_rank(1)
                == first@[1],
            r.is_ok() ==> forall|i: int|
                0 <= i < 2 ==> #[trigger] r.unwrap().third_rank(i).public_view() == third_rank_of(
                    first@[i].public_view(),
                ),
            r.is_err() ==> r->Err_0 == CryptoError::InvalidSecretKey,
    {
        let (_, pk0) = first[0].inner();
        let (_, pk1) = first[1].inner();
        let second0 = second_rank_commitment(&pk0)?;
        let second1 = second_rank_commitment(&pk1)?;
        let third0 = ThirdRankCommitment::from_public_key(public_key_of(&second0));
        let third1 = ThirdRankCommitment::from_public_key(public_key_of(&second1));
        let c = Commitments {
            first_rank_commitments: first,
            third_rank_commitments: [third0, third1],
        };
        assert(c.third_rank(0) == third0);
        assert(c.third_rank(1) == third1);
        Ok(c)
    }

    /// Draws two first-rank commitments at random and derives their third
    /// ranks.
    pub fn generate() -> (r: Result<Commitments, CryptoError>)
        ensures
            r.is_ok() ==> forall|i: int|
                0 <= i < 2 ==> #[trigger] r.unwrap().third_rank(i).public_view() == pubkey_of(
                    sha256_of(r.unwrap().first_rank(i).public_view()),
                ),
            r.is_err() ==> r->Err_0 == CryptoError::InvalidSecretKey,
    {
        let a = FirstRankCommitment::from_secret_key(random_secret_key());
        let b = FirstRankCommitment::from_secret_key(random_secret_key());
        let r = Commitments::from_first_rank([a, b]);
        match &r {
            Ok(c) => {
                proof {
                    use_type_invariant(c);
                }
            },
            Err(_) => {},
        }
        r
    }

    /// One of the two first-rank commitments, drawn at random.
    pub fn pick_random_first_rank_commitment(&self) -> (r: Option<&FirstRankCommitment>)
        ensures
            r.is_some(),
            r.unwrap() == self.first_rank(0) || r.unwrap() == self.first_rank(1),
    {
        let i = random_index(COMMITMENTS_COUNT);
        Some(&self.first_rank_commitments[i])
    }

    /// One of the two third-rank commitments, drawn at random.
    pub fn pick_random_third_rank_commitment(&self) -> (r: Option<&ThirdRankCommitment>)
        ensures
            r.is_some(),
            r.unwrap() == self.third_rank(0) || r.unwrap() == self.third_rank(1),
    {
        let i = random_index(COMMITMENTS_COUNT);
        Some(&self.third_rank_commitments[i])
    }

    /// The first-rank commitment at `i`, if there is one.
    pub fn pick_first_rank_commitment(&self, i: usize) -> (r: Option<&FirstRankCommitment>)
        ensures
            r.is_some() <==> i < 2,
            r.is_some() ==> r.unwrap() == self.first_rank(i as int),
    {
        if i < COMMITMENTS_COUNT {
            Some(&self.first_rank_commitments[i])
        } else {
            None
        }
    }

    /// The third-rank commitment at `i`, if there is one.
    pub fn pick_third_rank_commitment(&self, i: usize) -> (r: Option<&ThirdRankCommitment>)
        ensures
            r.is_some() <==> i < 2,
            r.is_some() ==> r.unwrap() == self.third_rank(i as int),
    {
        if i < COMMITMENTS_COUNT {
            Some(&self.third_rank_commitments[i])
        } else {
            None
        }
    }

    /// Both first-rank commitments.
    pub fn first_rank_commitments(&self) -> (r: &[FirstRankCommitment; 2])
        ensures
            r@[0] == self.first_rank(0),
            r@[1] == self.first_rank(1),
    {
        &self.first_rank_commitments
    }

    /// Both third-rank commitments.
    pub fn third_rank_commitments(&self) -> (r: &[ThirdRankCommitment; 2])
        ensures
            r@[0] == self.third_rank(0),
            r@[1] == self.third_rank(1),
    {
        &self.third_rank_commitments
    }
}

} // verus!
