//! The protocol around the transactions: funding selection, the artifacts the
//! two parties exchange, and the checks made before the challenger signs.

use crate::commitment::ThirdRankCommitment;
use crate::crypto::{
    combine_keys, ecdsa_compact_of, hash160, hash160_of, key_sum, pubkey_of, public_key_of, sha256,
    sha256_of, sign_digest_compact, CryptoError, PublicKey, SecretKey,
};
use crate::tx::OutPoint;
use vstd::prelude::*;

verus! {

/// Fee, in satoshis, that each funding transaction leaves to the miners.
pub const FEES: u64 = 300;

/// Smallest change, in satoshis, worth an output of its own.
pub const MIN_CHANGE: u64 = 500;

/// Confirmation status of an unspent output.
#[derive(Clone, Debug)]
pub struct UtxoStatus {
    pub confirmed: bool,
    pub block_height: Option<u64>,
    pub block_hash: Option<String>,
    pub block_time: Option<u64>,
}

/// An unspent output of the wallet.
#[derive(Clone, Debug)]
pub struct Utxo {
    pub txid: String,
    pub vout: u32,
    pub status: UtxoStatus,
    pub value: u64,
}

/// Why the wallet cannot fund a transaction.
#[derive(Clone, Copy, Debug, PartialEq, Eq, Structural)]
pub enum SelectionError {
    /// The outputs together hold less than the amount.
    InsufficientFunds,
    /// The amount with the fee, or the sum of the outputs selected, exceeds
    /// the range of satoshi values.
    AmountOverflow,
}

/// Total value of some outputs.
pub open spec fn total_value(s: Seq<Utxo>) -> nat
    decreases s.len(),
{
    if s.len() == 0 {
        0
    } else {
        total_value(s.drop_last()) + s.last().value as nat
    }
}

/// The shortest prefix of `s` that covers `amount` has length `k`.
pub open spec fn covering_prefix(s: Seq<Utxo>, amount: u64, k: int) -> bool {
    &&& 0 <= k <= s.len()
    &&& total_value(s.subrange(0, k)) >= amount
    &&& k > 0 ==> total_value(s.subrange(0, k - 1)) < amount
}

/// The outputs taken in order until they cover `amount`: the shortest prefix
/// that does, or an error where all of them together do not.
pub fn select_utxos(utxos: Vec<Utxo>, amount: u64) -> (r: Result<Vec<Utxo>, SelectionError>)
    ensures
        r.is_ok() <==> total_value(utxos@) >= amount,
        r.is_err() ==> r->Err_0 == SelectionError::InsufficientFunds,
        r.is_ok() ==> exists|k: int| #[trigger] covering_prefix(utxos@, amount, k) && r.unwrap()@ == utxos@.subrange(0, k),
{
    let mut utxos = utxos;
    let ghost all = utxos@;
    let mut remaining: u64 = amount;
    let mut i: usize = 0;
    while i < utxos.len() && remaining > 0
        invariant
            utxos@ == all,
            i <= all.len(),
            remaining as int == if total_value(all.subrange(0, i as int)) >= amount {
                0
            } else {
                amount - total_value(all.subrange(0, i as int))
            },
            i > 0 ==> total_value(all.subrange(0, i - 1)) < amount,
        decreases all.len() - i,
    {
        assert(all.subrange(0, i + 1).drop_last() =~= all.subrange(0, i as int));
        remaining = remaining.saturating_sub(utxos[i].value);
        i = i + 1;
    }
    if remaining != 0 {
        assert(all.subrange(0, all.len() as int) =~= all);
        return Err(SelectionError::InsufficientFunds);
    }
    proof {
        assert(covering_prefix(all, amount, i as int));
        lemma_total_monotonic(all, i as int);
    }
    utxos.truncate(i);
    assert(utxos@ =~= all.subrange(0, i as int));
    Ok(utxos)
}

/// A prefix holds no more than the whole.
proof fn lemma_total_monotonic(s: Seq<Utxo>, k: int)
    requires
        0 <= k <= s.len(),
    ensures
        total_value(s.subrange(0, k)) <= total_value(s),
    decreases s.len() - k,
{
    if k < s.len() {
        lemma_total_monotonic(s, k + 1);
        assert(s.subrange(0, k + 1).drop_last() =~= s.subrange(0, k));
    } else {
        assert(s.subrange(0, k) =~= s);
    }
}

/// Total value of some outputs, or `None` where it exceeds the range of
/// satoshi values.
pub fn sum_values(utxos: &Vec<Utxo>) -> (r: Option<u64>)
    ensures
        r.is_some() <==> total_value(utxos@) <= u64::MAX,
        r.is_some() ==> r.unwrap() == total_value(utxos@),
{
    let mut sum: u64 = 0;
    let mut i: usize = 0;
    while i < utxos.len()
        invariant
            i <= utxos@.len(),
            sum == total_value(utxos@.subrange(0, i as int)),
        decreases utxos@.len() - i,
    {
        assert(utxos@.subrange(0, i + 1).drop_last() =~= utxos@.subrange(0, i as int));
        match sum.checked_add(utxos[i].value) {
            Some(s) => sum = s,
            None => {
                proof {
                    lemma_total_monotonic(utxos@, i + 1);
                }
                return None;
            },
        }
        i = i + 1;
    }
    assert(utxos@.subrange(0, utxos@.len() as int) =~= utxos@);
    Some(sum)
}

/// The change of a funding transaction: what its inputs hold beyond the
/// amount and the fee, where that is at least `MIN_CHANGE`.
pub fn change_amount(inputs_sum: u64, amount: u64) -> (r: Option<u64>)
    requires
        inputs_sum >= amount + FEES,
    ensures
        r == (if inputs_sum - amount - FEES < MIN_CHANGE {
            None::<u64>
        } else {
            Some((inputs_sum - amount - FEES) as u64)
        }),
{
    let change = inputs_sum - amount - FEES;
    if change < MIN_CHANGE {
        None
    } else {
        Some(change)
    }
}

/// The outputs that fund `amount` plus the fee, and the change they leave.
pub fn plan_funding(utxos: Vec<Utxo>, amount: u64) -> (r: Result<(Vec<Utxo>, Option<u64>), SelectionError>)
    ensures
        amount + FEES > u64::MAX ==> r == Err::<(Vec<Utxo>, Option<u64>), SelectionError>(SelectionError::AmountOverflow),
        amount + FEES <= u64::MAX && total_value(utxos@) < amount + FEES ==> r == Err::<(Vec<Utxo>, Option<u64>), SelectionError>(
            SelectionError::InsufficientFunds,
        ),
        amount + FEES <= total_value(utxos@) <= u64::MAX ==> r.is_ok(),
        amount + FEES <= u64::MAX && amount + FEES <= total_value(utxos@) && r.is_err() ==> r
            == Err::<(Vec<Utxo>, Option<u64>), SelectionError>(SelectionError::AmountOverflow),
        r.is_ok() ==> exists|k: int|
            #[trigger] covering_prefix(utxos@, (amount + FEES) as u64, k) && r.unwrap().0@ == utxos@.subrange(0, k),
        r.is_ok() ==> ({
            let sum = total_value(r.unwrap().0@);
            r.unwrap().1 == if sum - amount - FEES < MIN_CHANGE {
                None::<u64>
            } else {
                Some((sum - amount - FEES) as u64)
            }
        }),
{
    let target = match amount.checked_add(FEES) {
        Some(t) => t,
        None => return Err(SelectionError::AmountOverflow),
    };
    let ghost all = utxos@;
    let selected = select_utxos(utxos, target)?;
    proof {
        let k = choose|k: int| #[trigger] covering_prefix(all, target, k) && selected@ == all.subrange(0, k);
        lemma_total_monotonic(all, k);
    }
    let sum = match sum_values(&selected) {
        Some(s) => s,
        None => return Err(SelectionError::AmountOverflow),
    };
    let change = change_amount(sum, amount);
    Ok((selected, change))
}

/// What the challenger publishes for the acceptor.
#[derive(Clone, Debug)]
pub struct PublicChallengerData {
    pub id: String,
    pub amount: u64,
    pub deposit_outpoint: OutPoint,
    pub third_rank_commitments: [String; 2],
    pub challenger_pubkey: String,
    pub challenger_pubkey_hash: String,
    pub proof_hex: String,
    pub vk: String,
    pub locktime: u32,
}

/// What the challenger keeps to itself.
#[derive(Clone, Debug)]
pub struct PrivateChallengerData {
    pub id: String,
    pub amount: u64,
    pub deposit_transaction: String,
    pub first_rank_commitments: [String; 2],
    pub selected_first_rank_commitment: String,
}

/// What the acceptor hands back to the challenger.
#[derive(Clone, Debug)]
pub struct AcceptorData {
    pub id: String,
    pub acceptor_pubkey_hash: String,
    pub third_rank_commitments: [String; 2],
    pub psbt: String,
    pub challenge_output_witness_script: String,
    pub proof_hex: String,
    pub vk: String,
}

/// Why a protocol step refuses to go on.
#[derive(Clone, Copy, Debug, PartialEq, Eq, Structural)]
pub enum ProtocolError {
    /// A number of commitments other than two.
    UnsupportedCommitmentsCount,
    /// A commitment index other than 0 or 1.
    CommitmentIndexOutOfRange,
    /// The two parties' artifacts belong to different challenges.
    IdMismatch,
    /// The two parties recorded different third-rank commitments.
    CommitmentMismatch,
}

/// Only two commitments per run are supported.
pub fn check_commitments_count(count: u32) -> (r: Result<(), ProtocolError>)
    ensures
        r.is_ok() <==> count == 2,
        r.is_err() ==> r->Err_0 == ProtocolError::UnsupportedCommitmentsCount,
{
    if count == 2 {
        Ok(())
    } else {
        Err(ProtocolError::UnsupportedCommitmentsCount)
    }
}

/// The third-rank commitment the acceptor selects by index.
pub fn select_commitment(commitments: &[ThirdRankCommitment; 2], index: u32) -> (r: Result<ThirdRankCommitment, ProtocolError>)
    ensures
        r.is_ok() <==> index < 2,
        r.is_ok() ==> r.unwrap() == commitments@[index as int],
        r.is_err() ==> r->Err_0 == ProtocolError::CommitmentIndexOutOfRange,
{
    if index < 2 {
        Ok(commitments[index as usize])
    } else {
        Err(ProtocolError::CommitmentIndexOutOfRange)
    }
}

/// Before the challenger signs: both artifacts belong to the same challenge,
/// and both parties recorded the same third-rank commitments.
pub fn validate_completion(
    challenger_id: &String,
    acceptor_id: &String,
    challenger_commitments: &[ThirdRankCommitment; 2],
    acceptor_commitments: &[ThirdRankCommitment; 2],
) -> (r: Result<(), ProtocolError>)
    ensures
        challenger_id@ != acceptor_id@ ==> r == Err::<(), ProtocolError>(ProtocolError::IdMismatch),
        challenger_id@ == acceptor_id@ ==> (r.is_ok() <==> forall|i: int|
            0 <= i < 2 ==> #[trigger] challenger_commitments@[i].public_view() == acceptor_commitments@[i].public_view()),
        challenger_id@ == acceptor_id@ && r.is_err() ==> r->Err_0 == ProtocolError::CommitmentMismatch,
{
    if !<String as PartialEq>::eq(challenger_id, acceptor_id) {
        return Err(ProtocolError::IdMismatch);
    }
    let mut i: usize = 0;
    while i < 2
        invariant
            i <= 2,
            challenger_id@ == acceptor_id@,
            forall|k: int| 0 <= k < i ==> #[trigger] challenger_commitments@[k].public_view() == acceptor_commitments@[k].public_view(),
        decreases 2 - i,
    {
        if !challenger_commitments[i].inner().same_key(&acceptor_commitments[i].inner()) {
            return Err(ProtocolError::CommitmentMismatch);
        }
        i = i + 1;
    }
    Ok(())
}

/// Hash160 of the sum of two keys: the challenger's key plus the selected
/// first-rank key, or the acceptor's key plus the selected third-rank key.
pub fn tweaked_key_hash(base: &PublicKey, tweak: &PublicKey) -> (r: Result<[u8; 20], CryptoError>)
    ensures
        r.is_ok() <==> key_sum(base@, tweak@).is_some(),
        r.is_ok() ==> r.unwrap()@ == hash160_of(key_sum(base@, tweak@).unwrap()),
        r.is_err() ==> r->Err_0 == CryptoError::InvalidPublicKeySum,
{
    let combined = combine_keys(base, tweak)?;
    Ok(hash160(&combined.serialize()))
}

/// What the acceptor proves knowledge of: the hash of its key plus the
/// selected third-rank key, and its compact signature over the SHA-256 of
/// that hash.
pub fn acceptor_proof_inputs(secret_key: &SecretKey, selected: &ThirdRankCommitment) -> (r: Result<([u8; 20], [u8; 64]), CryptoError>)
    ensures
        r.is_ok() <==> key_sum(pubkey_of(secret_key@), selected.public_view()).is_some(),
        r.is_ok() ==> ({
            let hash = hash160_of(key_sum(pubkey_of(secret_key@), selected.public_view()).unwrap());
            &&& r.unwrap().0@ == hash
            &&& r.unwrap().1@ == ecdsa_compact_of(secret_key@, sha256_of(hash))
        }),
        r.is_err() ==> r->Err_0 == CryptoError::InvalidPublicKeySum,
{
    let public_key = public_key_of(secret_key);
    let hash = tweaked_key_hash(&public_key, &selected.inner())?;
    let message = sha256(&hash);
    let signature = sign_digest_compact(secret_key, &message);
    Ok((hash, signature))
}

} // verus!
