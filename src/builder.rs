//! The transaction builder: one secret key, and the transactions of the
//! protocol built and signed with it.
//!
//! The challenger builds and signs the deposit transaction; the acceptor
//! builds the challenge transaction and signs its own inputs of it; the
//! challenger signs the deposit input and extracts the signed challenge
//! transaction; either party may then sweep the challenge output along its
//! branch of the challenge script.

use crate::commitment::{second_rank_commitment, second_rank_of, third_rank_of, Commitments, FirstRankCommitment, ThirdRankCommitment};
use crate::crypto::{
    add_secret_keys, combine_keys, ecdsa_der_of, ecdsa_verifies, is_valid_secret, key_negation, key_sum, negate_key, parsed_point,
    pubkey_of, public_key_of, secret_sum, sign_digest, CryptoError, PublicKey, SecretKey,
};
use crate::errors::TransactionError;
use crate::psbt::{insert_partial_sig, PartialSig, Psbt};
use crate::script::{challenge_script, challenge_script_of, create_p2wpkh_script, p2wpkh_script_of, p2wsh_script, p2wsh_script_of};
use crate::tx::{
    p2wpkh_sighash, p2wpkh_sighash_of, p2wsh_sighash, p2wsh_sighash_of, set_witness, txid_of, InputModel,
    OutPoint, OutputModel, Transaction, TxIn, TxOut, UnsignedModel, SEQUENCE_ENABLE_LOCKTIME_NO_RBF,
    SEQUENCE_FINAL, SIGHASH_ALL,
};
use vstd::prelude::*;

verus! {

/// Signature of input `index` as spent by P2WPKH under secret key `sk`:
/// DER encoding followed by the sighash flag ALL.
pub open spec fn p2wpkh_signature(sk: Seq<u8>, tx: UnsignedModel, index: int, value: u64) -> Seq<u8> {
    ecdsa_der_of(sk, p2wpkh_sighash_of(tx, index, p2wpkh_script_of(pubkey_of(sk)), value)).push(SIGHASH_ALL)
}

/// The witness stack of a P2WPKH spend under `sk`: signature, public key.
pub open spec fn p2wpkh_witness(sk: Seq<u8>, tx: UnsignedModel, index: int, value: u64) -> Seq<Seq<u8>> {
    seq![p2wpkh_signature(sk, tx, index, value), pubkey_of(sk)]
}

/// The P2WPKH signature of input `index` under `sk` verifies under the
/// public key of `sk`.
pub open spec fn signature_verifies(sk: Seq<u8>, tx: UnsignedModel, index: int, value: u64) -> bool {
    let digest = p2wpkh_sighash_of(tx, index, p2wpkh_script_of(pubkey_of(sk)), value);
    ecdsa_verifies(pubkey_of(sk), digest, ecdsa_der_of(sk, digest))
}

/// Signature of input `index` as spent through witness script `ws` under `sk`.
pub open spec fn p2wsh_signature(sk: Seq<u8>, tx: UnsignedModel, index: int, ws: Seq<u8>, value: u64) -> Seq<u8> {
    ecdsa_der_of(sk, p2wsh_sighash_of(tx, index, ws, value)).push(SIGHASH_ALL)
}

/// Inputs that spend the given outputs, with the final sequence number.
pub open spec fn spends(prev: Seq<(OutPoint, u64)>) -> Seq<InputModel> {
    prev.map_values(|p: (OutPoint, u64)| InputModel { previous_output: p.0, sequence: SEQUENCE_FINAL })
}

/// The change output, where there is a change amount.
pub open spec fn change_outputs(change_amount: Option<u64>, key: Seq<u8>) -> Seq<OutputModel> {
    match change_amount {
        Some(c) => seq![OutputModel { value: c, script_pubkey: p2wpkh_script_of(key) }],
        None => Seq::empty(),
    }
}

/// The key that change goes to: the one given, else the builder's own.
pub open spec fn change_key(change_pubkey: Option<PublicKey>, own: Seq<u8>) -> Seq<u8> {
    match change_pubkey {
        Some(k) => k@,
        None => own,
    }
}

/// The branch selector that takes `OP_IF`: exactly the byte 1, the only true
/// value a minimal `OP_IF` argument may have.
pub open spec fn selects_if_branch(selector: Seq<u8>) -> bool {
    selector == seq![1u8]
}

/// The branch selector that takes `OP_ELSE`: the empty string, the only false
/// value a minimal `OP_IF` argument may have.
pub open spec fn selects_else_branch(selector: Seq<u8>) -> bool {
    selector.len() == 0
}

/// The challenge script checks the tweaked acceptor key directly after
/// `OP_IF`, and reaches the challenger key only after `OP_ELSE` and the
/// lock-time check; no selector takes both branches.
pub proof fn lemma_challenge_branches(challenger: Seq<u8>, acceptor: Seq<u8>, lock_time: u32, selector: Seq<u8>)
    requires
        challenger.len() == 33,
        acceptor.len() == 33,
    ensures
        ({
            let s = challenge_script_of(challenger, acceptor, lock_time);
            &&& s[0] == crate::script::OP_IF
            &&& s.subrange(2, 35) == acceptor
            &&& s[35] == crate::script::OP_CHECKSIG
            &&& s[36] == crate::script::OP_ELSE
            &&& s.subrange(s.len() - 35, s.len() - 2) == challenger
            &&& s[s.len() - 2] == crate::script::OP_CHECKSIG
            &&& s[s.len() - 1] == crate::script::OP_ENDIF
        }),
        !(selects_if_branch(selector) && selects_else_branch(selector)),
{
    let s = challenge_script_of(challenger, acceptor, lock_time);
    assert(s.subrange(2, 35) =~= acceptor);
    assert(s.subrange(s.len() - 35, s.len() - 2) =~= challenger);
}

/// Builds and signs the transactions of the protocol with one secret key.
#[derive(Clone, Copy, Debug)]
pub struct TransactionBuilder {
    secret_key: SecretKey,
}

impl TransactionBuilder {
    pub closed spec fn secret_view(&self) -> Seq<u8> {
        self.secret_key@
    }

    /// The public key of the builder's secret key.
    pub open spec fn public_view(&self) -> Seq<u8> {
        pubkey_of(self.secret_view())
    }

    /// A builder that signs with `secret_key`.
    pub fn new(secret_key: SecretKey) -> (r: TransactionBuilder)
        ensures
            r.secret_view() == secret_key@,
    {
        TransactionBuilder { secret_key }
    }

    /// The builder's public key.
    pub fn public_key(&self) -> (r: PublicKey)
        ensures
            r@ == self.public_view(),
    {
        public_key_of(&self.secret_key)
    }

    /// Signs input `input_index` as a P2WPKH spend of `amount` satoshis under
    /// the builder's key, setting its witness to signature and public key.
    fn sign_single_input(&self, tx: &mut Transaction, input_index: usize, amount: u64) -> (r: Result<(), TransactionError>)
        ensures
            r.is_ok() <==> input_index < old(tx).input@.len(),
            r.is_err() ==> r->Err_0 == TransactionError::InputIndexOutOfBounds && *final(tx) == *old(tx),
            r.is_ok() ==> final(tx).unsigned() == old(tx).unsigned() && final(tx).version == old(tx).version
                && final(tx).lock_time == old(tx).lock_time && final(tx).output@ == old(tx).output@
                && final(tx).input@.len() == old(tx).input@.len(),
            r.is_ok() ==> forall|j: int|
                0 <= j < final(tx).input@.len() && j != input_index ==> #[trigger] final(tx).input@[j]
                    == old(tx).input@[j],
            r.is_ok() ==> final(tx).input@[input_index as int].witness_view() == p2wpkh_witness(
                self.secret_view(),
                old(tx).unsigned(),
                input_index as int,
                amount,
            ),
    {
        if input_index >= tx.input.len() {
            return Err(TransactionError::InputIndexOutOfBounds);
        }
        let public_key = self.public_key();
        let script_code = create_p2wpkh_script(&public_key);
        let sighash = p2wpkh_sighash(tx, input_index, &script_code, amount);
        let mut signature = sign_digest(&self.secret_key, &sighash);
        signature.push(SIGHASH_ALL);
        let witness: Vec<Vec<u8>> = vec![signature, public_key.to_vec()];
        set_witness(tx, input_index, witness);
        assert(tx.input@[input_index as int].witness_view() =~= p2wpkh_witness(
            self.secret_view(),
            old(tx).unsigned(),
            input_index as int,
            amount,
        ));
        Ok(())
    }

    /// Signs every input of `tx` with the builder's key, input `i` spending
    /// `amounts[i]` satoshis.
    pub(crate) fn sign_transaction(&self, tx: &mut Transaction, amounts: Vec<u64>) -> (r: Result<(), TransactionError>)
        ensures
            r.is_ok() <==> old(tx).input@.len() == amounts@.len(),
            r.is_err() ==> r->Err_0 == TransactionError::InputsOutputsLengthMismatch && *final(tx) == *old(tx),
            r.is_ok() ==> final(tx).unsigned() == old(tx).unsigned() && final(tx).version == old(tx).version
                && final(tx).lock_time == old(tx).lock_time && final(tx).output@ == old(tx).output@
                && final(tx).input@.len() == old(tx).input@.len(),
            r.is_ok() ==> forall|i: int|
                0 <= i < amounts@.len() ==> #[trigger] final(tx).input@[i].witness_view() == p2wpkh_witness(
                    self.secret_view(),
                    old(tx).unsigned(),
                    i,
                    amounts@[i],
                ),
    {
        if tx.input.len() != amounts.len() {
            return Err(TransactionError::InputsOutputsLengthMismatch);
        }
        let mut i: usize = 0;
        while i < amounts.len()
            invariant
                i <= amounts@.len(),
                tx.input@.len() == amounts@.len(),
                tx.unsigned() == old(tx).unsigned(),
                tx.version == old(tx).version,
                tx.lock_time == old(tx).lock_time,
                tx.output@ == old(tx).output@,
                forall|k: int|
                    0 <= k < i ==> #[trigger] tx.input@[k].witness_view() == p2wpkh_witness(
                        self.secret_view(),
                        old(tx).unsigned(),
                        k,
                        amounts@[k],
                    ),
            decreases amounts@.len() - i,
        {
            let r = self.sign_single_input(tx, i, amounts[i]);
            assert(r.is_ok());
            i = i + 1;
        }
        Ok(())
    }
}

impl TransactionBuilder {
    /// The challenger's deposit transaction: one output of `deposit_amount`
    /// locked to the builder's key plus the first-rank commitment's key, an
    /// optional change output, one input per previous output, every input
    /// signed with the builder's key.
    ///
    /// The inputs must cover the outputs and the fee; that is left to the
    /// caller.
    pub fn build_deposit_transaction(
        &self,
        first_rank_commitment: FirstRankCommitment,
        previous_outputs: Vec<(OutPoint, u64)>,
        deposit_amount: u64,
        change_amount: Option<u64>,
        change_pubkey: Option<PublicKey>,
    ) -> (r: Result<Transaction, TransactionError>)
        ensures
            r.is_ok() <==> key_sum(first_rank_commitment.public_view(), self.public_view()).is_some(),
            r.is_err() ==> r->Err_0 == TransactionError::Secp256k1(CryptoError::InvalidPublicKeySum),
            r.is_ok() ==> ({
                let tx = r.unwrap();
                let locked = key_sum(first_rank_commitment.public_view(), self.public_view()).unwrap();
                &&& tx.version == 1
                &&& tx.lock_time == 0
                &&& tx.unsigned().input == spends(previous_outputs@)
                &&& tx.unsigned().output == seq![OutputModel { value: deposit_amount, script_pubkey: p2wpkh_script_of(locked) }]
                    + change_outputs(change_amount, change_key(change_pubkey, self.public_view()))
                &&& forall|i: int|
                    0 <= i < previous_outputs@.len() ==> #[trigger] tx.input@[i].witness_view()
                        == p2wpkh_witness(self.secret_view(), tx.unsigned(), i, previous_outputs@[i].1)
            }),
    {
        let public_key = self.public_key();
        let challenge_pubkey = match first_rank_commitment.combine(&public_key) {
            Ok(k) => k,
            Err(e) => return Err(TransactionError::Secp256k1(e)),
        };
        let deposit_script = create_p2wpkh_script(&challenge_pubkey);
        let mut outputs: Vec<TxOut> = vec![TxOut { value: deposit_amount, script_pubkey: deposit_script }];
        match change_amount {
            Some(c) => {
                let key = match change_pubkey {
                    Some(k) => k,
                    None => public_key,
                };
                outputs.push(TxOut { value: c, script_pubkey: create_p2wpkh_script(&key) });
            },
            None => {},
        }
        let ghost out_model = outputs@.map_values(|o: TxOut| o.model());
        assert(out_model =~= seq![OutputModel { value: deposit_amount, script_pubkey: p2wpkh_script_of(challenge_pubkey@) }]
            + change_outputs(change_amount, change_key(change_pubkey, self.public_view())));
        let (inputs, amounts) = inputs_of(&previous_outputs);
        let mut deposit_tx = Transaction::create(inputs, outputs, None);
        let ghost unsigned = deposit_tx.unsigned();
        let signed = self.sign_transaction(&mut deposit_tx, amounts);
        assert(signed.is_ok());
        Ok(deposit_tx)
    }
}

/// The partial signatures as (key, signature) pairs of byte strings.
pub open spec fn sigs_view(s: Seq<PartialSig>) -> Seq<(Seq<u8>, Seq<u8>)> {
    s.map_values(|p: PartialSig| (p.public_key@, p.signature@))
}

/// `new` is `old` with the pair `e` added: appended where no pair has its
/// key, else put in place of the first pair with its key.
pub open spec fn sig_added(old: Seq<(Seq<u8>, Seq<u8>)>, new: Seq<(Seq<u8>, Seq<u8>)>, e: (Seq<u8>, Seq<u8>)) -> bool {
    &&& (forall|j: int| 0 <= j < old.len() ==> #[trigger] old[j].0 != e.0) ==> new == old.push(e)
    &&& (exists|j: int| 0 <= j < old.len() && #[trigger] old[j].0 == e.0) ==> exists|j: int|
        0 <= j < old.len() && old[j].0 == e.0 && (forall|k: int| 0 <= k < j ==> #[trigger] old[k].0 != e.0)
            && new == #[trigger] old.update(j, e)
}

impl TransactionBuilder {
    /// Signs input `input_index` of the partially signed transaction as a
    /// P2WPKH spend of `amount` satoshis, under `secret_key` where one is
    /// given and the builder's key otherwise: adds the partial signature,
    /// records the output spent, and sets the sighash flag ALL where none is
    /// set.
    pub fn sign_psbt_input(
        &self,
        psbt: &mut Psbt,
        input_index: usize,
        amount: u64,
        secret_key: Option<SecretKey>,
    ) -> (r: Result<(), TransactionError>)
        ensures
            r.is_ok() <==> input_index < old(psbt).inputs@.len() && input_index < old(psbt).unsigned_tx.input@.len(),
            r.is_err() ==> r->Err_0 == TransactionError::InputIndexOutOfBounds && *final(psbt) == *old(psbt),
            r.is_ok() ==> final(psbt).unsigned_tx == old(psbt).unsigned_tx,
            r.is_ok() ==> final(psbt).inputs@.len() == old(psbt).inputs@.len(),
            r.is_ok() ==> forall|j: int|
                0 <= j < final(psbt).inputs@.len() && j != input_index ==> #[trigger] final(psbt).inputs@[j]
                    == old(psbt).inputs@[j],
            r.is_ok() ==> ({
                let k = match secret_key {
                    Some(k) => k@,
                    None => self.secret_view(),
                };
                let before = old(psbt).inputs@[input_index as int];
                let after = final(psbt).inputs@[input_index as int];
                let sig = p2wpkh_signature(k, old(psbt).unsigned_tx.unsigned(), input_index as int, amount);
                &&& sig_added(sigs_view(before.partial_sigs@), sigs_view(after.partial_sigs@), (pubkey_of(k), sig))
                &&& after.witness_utxo.is_some()
                &&& after.witness_utxo.unwrap().model() == (OutputModel { value: amount, script_pubkey: p2wpkh_script_of(pubkey_of(k)) })
                &&& after.sighash_type == (if before.sighash_type.is_none() { Some(1u32) } else { before.sighash_type })
                &&& signature_verifies(k, old(psbt).unsigned_tx.unsigned(), input_index as int, amount)
            }),
    {
        if input_index >= psbt.inputs.len() || input_index >= psbt.unsigned_tx.input.len() {
            return Err(TransactionError::InputIndexOutOfBounds);
        }
        let secret_key = match secret_key {
            Some(k) => k,
            None => self.secret_key,
        };
        let public_key = public_key_of(&secret_key);
        let script_pubkey = create_p2wpkh_script(&public_key);
        let sighash = p2wpkh_sighash(&psbt.unsigned_tx, input_index, &script_pubkey, amount);
        let mut signature = sign_digest(&secret_key, &sighash);
        signature.push(SIGHASH_ALL);
        let ghost old_inputs = psbt.inputs@;
        let mut input = psbt.inputs.remove(input_index);
        let ghost old_sigs = input.partial_sigs@;
        let new_sig = PartialSig { public_key, signature };
        insert_partial_sig(&mut input.partial_sigs, new_sig);
        proof {
            let e = (new_sig.public_key@, new_sig.signature@);
            assert(sigs_view(old_sigs.push(new_sig)) =~= sigs_view(old_sigs).push(e));
            assert forall|j: int| 0 <= j < old_sigs.len() implies #[trigger] sigs_view(old_sigs.update(j, new_sig))
                == sigs_view(old_sigs).update(j, e) by {
                assert(sigs_view(old_sigs.update(j, new_sig)) =~= sigs_view(old_sigs).update(j, e));
            }
            if exists|j: int| 0 <= j < sigs_view(old_sigs).len() && #[trigger] sigs_view(old_sigs)[j].0 == e.0 {
                let j = choose|j: int| 0 <= j < sigs_view(old_sigs).len() && #[trigger] sigs_view(old_sigs)[j].0 == e.0;
                assert(old_sigs[j].public_key@ == new_sig.public_key@);
            }
            if forall|j: int| 0 <= j < sigs_view(old_sigs).len() ==> #[trigger] sigs_view(old_sigs)[j].0 != e.0 {
                assert forall|j: int| 0 <= j < old_sigs.len() implies #[trigger] old_sigs[j].public_key@ != new_sig.public_key@ by {
                    assert(sigs_view(old_sigs)[j].0 != e.0);
                }
            }
        }
        input.witness_utxo = Some(TxOut { value: amount, script_pubkey });
        if input.sighash_type.is_none() {
            input.sighash_type = Some(1u32);
        }
        psbt.inputs.insert(input_index, input);
        assert(psbt.inputs@ =~= old_inputs.update(input_index as int, input));
        Ok(())
    }
}

/// Input `i` of the challenge transaction carries exactly the acceptor's
/// partial signature for spending `value` satoshis, and the output it spends.
pub open spec fn acceptor_signed(psbt: Psbt, i: int, sk: Seq<u8>, value: u64) -> bool {
    let inp = psbt.inputs@[i];
    &&& sigs_view(inp.partial_sigs@) == seq![(pubkey_of(sk), p2wpkh_signature(sk, psbt.unsigned_tx.unsigned(), i, value))]
    &&& inp.witness_utxo.is_some()
    &&& inp.witness_utxo.unwrap().model() == (OutputModel { value, script_pubkey: p2wpkh_script_of(pubkey_of(sk)) })
    &&& inp.sighash_type == Some(1u32)
    &&& signature_verifies(sk, psbt.unsigned_tx.unsigned(), i, value)
}

/// An input carrying the acceptor's partial signature is satisfied: the
/// signature is the one finalization accepts for that input.
pub proof fn lemma_acceptor_input_satisfied(psbt: Psbt, i: int, sk: Seq<u8>, value: u64)
    requires
        0 <= i < psbt.inputs@.len(),
        i < psbt.unsigned_tx.input@.len(),
        acceptor_signed(psbt, i, sk, value),
    ensures
        psbt.input_satisfiable(i),
{
    let inp = psbt.inputs@[i];
    let u = psbt.unsigned_tx.unsigned();
    let sv = sigs_view(inp.partial_sigs@);
    assert(sv.len() == 1);
    assert(inp.partial_sigs@[0].public_key@ == sv[0].0);
    assert(inp.partial_sigs@[0].signature@ == sv[0].1);
    let digest = p2wpkh_sighash_of(u, i, p2wpkh_script_of(pubkey_of(sk)), value);
    assert(sv[0].1.drop_last() =~= ecdsa_der_of(sk, digest));
    assert(inp.satisfied_by(u, i, 0));
}

impl TransactionBuilder {
    /// The acceptor's challenge transaction, partially signed.
    ///
    /// Its one locked output holds twice `amount`, paid to the challenge
    /// script over the challenger's key, the builder's key plus the
    /// third-rank commitment's key, and `lock_time`; an optional change output
    /// follows. Input 0 spends the deposit; the builder's own previous outputs
    /// follow, each signed by the builder. The deposit input is left for the
    /// challenger to sign. Returns the challenge script with the partially
    /// signed transaction.
    pub fn build_challenge_tx(
        &self,
        challenger_pubkey: &PublicKey,
        deposit_outpoint: OutPoint,
        third_rank_commitment: ThirdRankCommitment,
        lock_time: u32,
        amount: u64,
        previous_outputs: Vec<(OutPoint, u64)>,
        change_amount: Option<u64>,
        change_pubkey: Option<PublicKey>,
    ) -> (r: Result<(Vec<u8>, Psbt), TransactionError>)
        ensures
            r.is_ok() <==> key_sum(third_rank_commitment.public_view(), self.public_view()).is_some()
                && 2 * amount <= u64::MAX,
            key_sum(third_rank_commitment.public_view(), self.public_view()).is_none() ==> r
                == Err::<(Vec<u8>, Psbt), TransactionError>(TransactionError::Secp256k1(CryptoError::InvalidPublicKeySum)),
            key_sum(third_rank_commitment.public_view(), self.public_view()).is_some() && 2 * amount > u64::MAX
                ==> r == Err::<(Vec<u8>, Psbt), TransactionError>(TransactionError::AmountOutOfRange),
            r.is_ok() ==> ({
                let script = r.unwrap().0;
                let psbt = r.unwrap().1;
                let tweaked = key_sum(third_rank_commitment.public_view(), self.public_view()).unwrap();
                let tx = psbt.unsigned_tx;
                &&& script@ == challenge_script_of(challenger_pubkey@, tweaked, lock_time)
                &&& psbt.wf()
                &&& tx.version == 1
                &&& tx.lock_time == 0
                &&& tx.unsigned().input == seq![InputModel { previous_output: deposit_outpoint, sequence: SEQUENCE_FINAL }]
                    + spends(previous_outputs@)
                &&& tx.unsigned().output == seq![OutputModel { value: (2 * amount) as u64, script_pubkey: p2wsh_script_of(script@) }]
                    + change_outputs(change_amount, change_key(change_pubkey, self.public_view()))
                &&& forall|i: int| 0 <= i < tx.input@.len() ==> #[trigger] tx.input@[i].witness@.len() == 0
                &&& psbt.inputs@[0].is_empty()
                &&& forall|i: int|
                    1 <= i < psbt.inputs@.len() ==> #[trigger] acceptor_signed(psbt, i, self.secret_view(), previous_outputs@[i - 1].1)
            }),
    {
        let acceptor_public_key = self.public_key();
        let tweaked_acceptor_pubkey = match third_rank_commitment.combine(&acceptor_public_key) {
            Ok(k) => k,
            Err(e) => return Err(TransactionError::Secp256k1(e)),
        };
        let script = challenge_script(challenger_pubkey, &tweaked_acceptor_pubkey, lock_time);
        let stake = match amount.checked_mul(2) {
            Some(v) => v,
            None => return Err(TransactionError::AmountOutOfRange),
        };
        let mut outputs: Vec<TxOut> = vec![TxOut { value: stake, script_pubkey: p2wsh_script(script.as_slice()) }];
        match change_amount {
            Some(c) => {
                let key = match change_pubkey {
                    Some(k) => k,
                    None => acceptor_public_key,
                };
                outputs.push(TxOut { value: c, script_pubkey: create_p2wpkh_script(&key) });
            },
            None => {},
        }
        let ghost out_model = outputs@.map_values(|o: TxOut| o.model());
        assert(out_model =~= seq![OutputModel { value: (2 * amount) as u64, script_pubkey: p2wsh_script_of(script@) }]
            + change_outputs(change_amount, change_key(change_pubkey, self.public_view())));
        let (acceptor_inputs, _) = inputs_of(&previous_outputs);
        let mut inputs: Vec<TxIn> = vec![TxIn::new(deposit_outpoint, SEQUENCE_FINAL)];
        let ghost first = inputs@;
        let mut acceptor_inputs = acceptor_inputs;
        let ghost tail = acceptor_inputs@;
        inputs.append(&mut acceptor_inputs);
        proof {
            assert(inputs@.map_values(|i: TxIn| i.model()) =~= seq![InputModel { previous_output: deposit_outpoint, sequence: SEQUENCE_FINAL }]
                + spends(previous_outputs@));
            assert forall|i: int| 0 <= i < inputs@.len() implies #[trigger] inputs@[i].witness@.len() == 0 by {
                if i > 0 {
                    assert(inputs@[i] == tail[i - 1]);
                    assert(tail[i - 1].witness@.len() == 0);
                } else {
                    assert(inputs@[0] == first[0]);
                }
            }
        }
        let challenge_tx = Transaction::create(inputs, outputs, None);
        let mut psbt = match Psbt::from_unsigned_tx(challenge_tx) {
            Ok(p) => p,
            Err(e) => return Err(e),
        };
        let ghost unsigned_tx = psbt.unsigned_tx;
        let mut i: usize = 0;
        while i < previous_outputs.len()
            invariant
                i <= previous_outputs@.len(),
                psbt.unsigned_tx == unsigned_tx,
                psbt.inputs@.len() == previous_outputs@.len() + 1,
                unsigned_tx.input@.len() == previous_outputs@.len() + 1,
                psbt.inputs@[0].is_empty(),
                forall|k: int| i + 1 <= k < psbt.inputs@.len() ==> #[trigger] psbt.inputs@[k].is_empty(),
                forall|k: int| 1 <= k < i + 1 ==> #[trigger] acceptor_signed(psbt, k, self.secret_view(), previous_outputs@[k - 1].1),
            decreases previous_outputs@.len() - i,
        {
            let ghost before = psbt;
            let signed = self.sign_psbt_input(&mut psbt, i + 1, previous_outputs[i].1, None);
            assert(signed.is_ok());
            proof {
                assert(before.inputs@[i + 1].is_empty());
                assert(sigs_view(before.inputs@[i + 1].partial_sigs@) =~= Seq::empty());
                assert(acceptor_signed(psbt, i + 1, self.secret_view(), previous_outputs@[i as int].1));
                assert forall|k: int| 1 <= k < i + 2 implies #[trigger] acceptor_signed(psbt, k, self.secret_view(), previous_outputs@[k - 1].1) by {
                    if k < i + 1 {
                        assert(psbt.inputs@[k] == before.inputs@[k]);
                        assert(acceptor_signed(before, k, self.secret_view(), previous_outputs@[k - 1].1));
                    }
                }
            }
            i = i + 1;
        }
        Ok((script, psbt))
    }
}

impl TransactionBuilder {
    /// The challenger completes the challenge transaction: signs input
    /// `deposit_input_index`, which spends `deposit_amount` satoshis of the
    /// deposit, with the first-rank commitment's secret key plus the builder's,
    /// then finalizes every input and extracts the signed transaction. Where
    /// another input has no partial signature that verifies, the error lists
    /// those inputs.
    pub fn complete_challenge_tx(
        &self,
        psbt: Psbt,
        deposit_amount: u64,
        deposit_input_index: usize,
        first_rank_commitment: FirstRankCommitment,
    ) -> (r: Result<Transaction, TransactionError>)
        ensures
            ({
                let key = secret_sum(first_rank_commitment.secret_view(), self.secret_view());
                let in_range = deposit_input_index < psbt.inputs@.len() && deposit_input_index
                    < psbt.unsigned_tx.input@.len();
                let others = forall|i: int|
                    0 <= i < psbt.inputs@.len() && i != deposit_input_index ==> #[trigger] psbt.input_satisfiable(i);
                &&& r.is_ok() <==> key.is_some() && in_range && psbt.wf() && others
                &&& key.is_none() ==> r == Err::<Transaction, TransactionError>(TransactionError::Secp256k1(CryptoError::InvalidTweak))
                &&& key.is_some() && !in_range ==> r == Err::<Transaction, TransactionError>(TransactionError::InputIndexOutOfBounds)
                &&& key.is_some() && in_range && !(psbt.wf() && others) ==> r->Err_0 is ExtractTransactionFailed
                    && forall|i: int|
                    0 <= i < psbt.inputs@.len() ==> ((i != deposit_input_index && !#[trigger] psbt.input_satisfiable(i))
                        <==> r->Err_0->ExtractTransactionFailed_0@.contains(i as usize))
            }),
            r.is_ok() ==> ({
                let tx = r.unwrap();
                let key = secret_sum(first_rank_commitment.secret_view(), self.secret_view()).unwrap();
                let deposit = psbt.inputs@[deposit_input_index as int];
                let w = tx.input@[deposit_input_index as int].witness_view();
                &&& key_sum(first_rank_commitment.public_view(), self.public_view()) == Some(pubkey_of(key))
                &&& tx.unsigned() == psbt.unsigned_tx.unsigned()
                &&& tx.version == psbt.unsigned_tx.version
                &&& tx.lock_time == psbt.unsigned_tx.lock_time
                &&& tx.output@ == psbt.unsigned_tx.output@
                &&& tx.input@.len() == psbt.inputs@.len()
                &&& forall|i: int|
                    0 <= i < psbt.inputs@.len() && i != deposit_input_index ==> #[trigger] psbt.input_finalizes_to(
                        i,
                        tx.input@[i].witness_view(),
                    )
                &&& (w == p2wpkh_witness(key, psbt.unsigned_tx.unsigned(), deposit_input_index as int, deposit_amount)
                    || exists|j: int|
                    0 <= j < deposit.partial_sigs@.len() && p2wpkh_script_of(#[trigger] deposit.partial_sigs@[j].public_key@)
                        == p2wpkh_script_of(pubkey_of(key)) && deposit.partial_sigs@[j].public_key@ != pubkey_of(key)
                        && w == deposit.witness_of(j))
            }),
    {
        proof {
            use_type_invariant(&first_rank_commitment);
        }
        let deposit_signing_key = match first_rank_commitment.add_tweak(&self.secret_key) {
            Ok(k) => k,
            Err(e) => return Err(TransactionError::Secp256k1(e)),
        };
        let mut psbt = psbt;
        let ghost before = psbt;
        match self.sign_psbt_input(&mut psbt, deposit_input_index, deposit_amount, Some(deposit_signing_key)) {
            Ok(()) => {},
            Err(e) => return Err(e),
        }
        let ghost signed = psbt;
        let ghost u = before.unsigned_tx.unsigned();
        proof {
            let k = deposit_signing_key@;
            let idx = deposit_input_index as int;
            let e = (pubkey_of(k), p2wpkh_signature(k, u, idx, deposit_amount));
            let old_s = sigs_view(before.inputs@[idx].partial_sigs@);
            let new_s = sigs_view(signed.inputs@[idx].partial_sigs@);
            let m: int = if exists|j: int| 0 <= j < old_s.len() && #[trigger] old_s[j].0 == e.0 {
                choose|j: int|
                    0 <= j < old_s.len() && old_s[j].0 == e.0 && (forall|k: int| 0 <= k < j ==> #[trigger] old_s[k].0 != e.0)
                        && new_s == #[trigger] old_s.update(j, e)
            } else {
                old_s.len() as int
            };
            assert(new_s[m] == e);
            assert(new_s.len() == signed.inputs@[idx].partial_sigs@.len());
            assert(signed.inputs@[idx].partial_sigs@[m].public_key@ == new_s[m].0);
            assert(signed.inputs@[idx].partial_sigs@[m].signature@ == new_s[m].1);
            assert(e.1.drop_last() =~= ecdsa_der_of(k, p2wpkh_sighash_of(u, idx, p2wpkh_script_of(pubkey_of(k)), deposit_amount)));
            assert(signed.unsigned_tx.unsigned() == u);
            assert(signed.inputs@[idx].satisfied_by(u, idx, m));
            assert(signed.input_satisfiable(idx));
            assert forall|i: int| 0 <= i < signed.inputs@.len() && i != idx implies #[trigger] signed.inputs@[i]
                == before.inputs@[i] by {}
            assert forall|i: int| 0 <= i < signed.inputs@.len() && i != idx implies (#[trigger] signed.input_satisfiable(i)
                <==> before.input_satisfiable(i)) by {
                assert(signed.inputs@[i] == before.inputs@[i]);
            }
            let others = forall|i: int|
                0 <= i < before.inputs@.len() && i != idx ==> #[trigger] before.input_satisfiable(i);
            if others {
                assert forall|i: int| 0 <= i < signed.inputs@.len() implies #[trigger] signed.input_satisfiable(i) by {
                    if i != idx {
                        assert(before.input_satisfiable(i));
                    }
                }
            }
            if signed.complete() {
                assert forall|i: int| 0 <= i < before.inputs@.len() && i != idx implies #[trigger] before.input_satisfiable(i) by {
                    assert(signed.input_satisfiable(i));
                }
            }
            assert(signed.complete() <==> others);
            assert(signed.wf() <==> before.wf());
        }
        let r = psbt.extract_tx();
        proof {
            let k = deposit_signing_key@;
            let idx = deposit_input_index as int;
            let e = (pubkey_of(k), p2wpkh_signature(k, u, idx, deposit_amount));
            let old_s = sigs_view(before.inputs@[idx].partial_sigs@);
            let new_s = sigs_view(signed.inputs@[idx].partial_sigs@);
            if r.is_ok() {
                let tx = r.unwrap();
                let w = tx.input@[idx].witness_view();
                assert(signed.input_finalizes_to(idx, w));
                let j = choose|j: int|
                    #[trigger] signed.inputs@[idx].satisfied_by(u, idx, j) && (forall|k: int| 0 <= k < j ==> !#[trigger] signed.inputs@[idx].satisfied_by(u, idx, k))
                        && w == signed.inputs@[idx].witness_of(j);
                if new_s[j] == e {
                    assert(w =~= p2wpkh_witness(k, u, idx, deposit_amount));
                } else {
                    assert(new_s.len() == signed.inputs@[idx].partial_sigs@.len());
                    assert(new_s[j] == (signed.inputs@[idx].partial_sigs@[j].public_key@, signed.inputs@[idx].partial_sigs@[j].signature@));
                    if exists|j: int| 0 <= j < old_s.len() && #[trigger] old_s[j].0 == e.0 {
                        let j0 = choose|j0: int|
                            0 <= j0 < old_s.len() && old_s[j0].0 == e.0 && (forall|k: int| 0 <= k < j0 ==> #[trigger] old_s[k].0 != e.0)
                                && new_s == #[trigger] old_s.update(j0, e);
                        assert(j != j0);
                        assert(new_s[j0] == e);
                        assert(signed.inputs@[idx].partial_sigs@[j0].public_key@ == new_s[j0].0);
                        assert(signed.inputs@[idx].partial_sigs@[j0].signature@ == new_s[j0].1);
                        assert(e.1.drop_last() =~= ecdsa_der_of(k, p2wpkh_sighash_of(u, idx, p2wpkh_script_of(pubkey_of(k)), deposit_amount)));
                        assert(signed.inputs@[idx].satisfied_by(u, idx, j0));
                        assert(!(j0 < j));
                        assert(old_s[j].0 != e.0);
                    } else {
                        assert(new_s == old_s.push(e));
                        assert(old_s[j].0 != e.0);
                    }
                    assert(j < old_s.len());
                    assert(new_s[j] == old_s[j]);
                    assert(w =~= before.inputs@[idx].witness_of(j));
                    assert(p2wpkh_script_of(before.inputs@[idx].partial_sigs@[j].public_key@) == p2wpkh_script_of(pubkey_of(k)));
                }
                assert forall|i: int| 0 <= i < before.inputs@.len() && i != idx implies #[trigger] before.input_finalizes_to(
                    i,
                    tx.input@[i].witness_view(),
                ) by {
                    assert(signed.inputs@[i] == before.inputs@[i]);
                    assert(signed.input_finalizes_to(i, tx.input@[i].witness_view()));
                }
            } else {
                let v = r->Err_0->ExtractTransactionFailed_0@;
                assert forall|i: int| 0 <= i < before.inputs@.len() implies ((i != idx && !#[trigger] before.input_satisfiable(i))
                    <==> v.contains(i as usize)) by {
                    assert(signed.unsatisfied_are(v));
                    assert(!signed.input_satisfiable(i) <==> v.contains(i as usize));
                    if i != idx {
                        assert(signed.input_satisfiable(i) <==> before.input_satisfiable(i));
                    }
                }
            }
        }
        r
    }
}

/// The tweak that the acceptor's sweep reads from a challenge transaction:
/// the key in the deposit input's witness minus the challenger's key.
pub open spec fn recovered_tweak(challenge: Transaction, challenger: Seq<u8>) -> Option<Seq<u8>> {
    match parsed_point(challenge.input@[0].witness@[1]@) {
        Some(w) => key_sum(w, key_negation(challenger)),
        None => None,
    }
}

/// The key the acceptor's sweep signs with, or the error that stops it: the
/// builder's secret key plus the second rank of the recovered tweak.
pub open spec fn acceptor_sweep_key(sk: Seq<u8>, challenge: Transaction, challenger: Seq<u8>, fee: u64) -> Result<Seq<u8>, TransactionError> {
    if challenge.output@.len() == 0 {
        Err(TransactionError::MissingChallengeOutput)
    } else if challenge.output@[0].value < fee {
        Err(TransactionError::AmountOutOfRange)
    } else if challenge.input@.len() == 0 || challenge.input@[0].witness@.len() < 2
        || parsed_point(challenge.input@[0].witness@[1]@).is_none() {
        Err(TransactionError::Secp256k1(CryptoError::InvalidPublicKey))
    } else if recovered_tweak(challenge, challenger).is_none() {
        Err(TransactionError::Secp256k1(CryptoError::InvalidPublicKeySum))
    } else if !is_valid_secret(second_rank_of(recovered_tweak(challenge, challenger).unwrap())) {
        Err(TransactionError::Secp256k1(CryptoError::InvalidSecretKey))
    } else {
        match secret_sum(sk, second_rank_of(recovered_tweak(challenge, challenger).unwrap())) {
            Some(k) => Ok(k),
            None => Err(TransactionError::Secp256k1(CryptoError::InvalidTweak)),
        }
    }
}

/// Where subtracting the challenger's key from the key in the deposit input's
/// witness gives back the first-rank key of commitment `i`, the acceptor's
/// sweep signs with its own key plus the second-rank secret of that
/// commitment: the secret whose public key is the third-rank commitment at
/// `i`, the one the acceptor's key was tweaked with.
pub proof fn lemma_sweep_recovers_second_rank(
    sk: Seq<u8>,
    challenge: Transaction,
    challenger: Seq<u8>,
    fee: u64,
    commitments: Commitments,
    i: int,
)
    requires
        0 <= i < 2,
        commitments.inv(),
        recovered_tweak(challenge, challenger) == Some(commitments.first_rank(i).public_view()),
        acceptor_sweep_key(sk, challenge, challenger, fee).is_ok(),
    ensures
        ({
            let second = second_rank_of(commitments.first_rank(i).public_view());
            &&& Some(acceptor_sweep_key(sk, challenge, challenger, fee)->Ok_0) == secret_sum(sk, second)
            &&& pubkey_of(second) == commitments.third_rank(i).public_view()
        }),
{
}

/// A sweep of output 0 of `challenge`: one input spending it with sequence
/// number `sequence`, one output of its value less `fee` paid to `recipient`.
pub open spec fn is_sweep_of(tx: Transaction, challenge: Transaction, sequence: u32, recipient: Seq<u8>, fee: u64) -> bool {
    &&& tx.version == 1
    &&& tx.input@.len() == 1
    &&& tx.input@[0].previous_output.txid@ == txid_of(challenge.unsigned())
    &&& tx.input@[0].previous_output.vout == 0
    &&& tx.input@[0].sequence == sequence
    &&& tx.unsigned().output == seq![OutputModel { value: (challenge.output@[0].value - fee) as u64, script_pubkey: p2wpkh_script_of(recipient) }]
}

/// Sets the witness of input `input_index` to a spend through witness
/// script `witness_script` under `key`: signature, branch selector, script.
fn sign_p2wsh_input(
    tx: &mut Transaction,
    input_index: usize,
    amount: u64,
    witness_script: &Vec<u8>,
    key: &SecretKey,
    selector: Vec<u8>,
) -> (r: Result<(), TransactionError>)
    ensures
        r.is_ok() <==> input_index < old(tx).input@.len(),
        r.is_err() ==> r->Err_0 == TransactionError::InputIndexOutOfBounds && *final(tx) == *old(tx),
        r.is_ok() ==> final(tx).unsigned() == old(tx).unsigned() && final(tx).version == old(tx).version
            && final(tx).lock_time == old(tx).lock_time && final(tx).output@ == old(tx).output@
            && final(tx).input@.len() == old(tx).input@.len(),
        r.is_ok() ==> final(tx).input@[input_index as int].witness_view() == seq![
            p2wsh_signature(key@, old(tx).unsigned(), input_index as int, witness_script@, amount),
            selector@,
            witness_script@,
        ],
{
    if input_index >= tx.input.len() {
        return Err(TransactionError::InputIndexOutOfBounds);
    }
    let sighash = p2wsh_sighash(tx, input_index, witness_script, amount);
    let mut signature = sign_digest(key, &sighash);
    signature.push(SIGHASH_ALL);
    let script = crate::script::copy_bytes(witness_script);
    let witness: Vec<Vec<u8>> = vec![signature, selector, script];
    set_witness(tx, input_index, witness);
    assert(tx.input@[input_index as int].witness_view() =~= seq![
        p2wsh_signature(key@, old(tx).unsigned(), input_index as int, witness_script@, amount),
        selector@,
        witness_script@,
    ]);
    Ok(())
}

impl TransactionBuilder {
    /// Signs input `input_index` through the immediate (`OP_IF`) branch of the
    /// challenge script, with the tweaked acceptor key.
    fn sign_p2wsh_input_acceptor(
        &self,
        tx: &mut Transaction,
        input_index: usize,
        amount: u64,
        witness_script: &Vec<u8>,
        tweaked_secret_key: SecretKey,
    ) -> (r: Result<(), TransactionError>)
        ensures
            r.is_ok() <==> input_index < old(tx).input@.len(),
            r.is_err() ==> r->Err_0 == TransactionError::InputIndexOutOfBounds && *final(tx) == *old(tx),
            r.is_ok() ==> final(tx).unsigned() == old(tx).unsigned() && final(tx).version == old(tx).version
                && final(tx).lock_time == old(tx).lock_time && final(tx).output@ == old(tx).output@
                && final(tx).input@.len() == old(tx).input@.len(),
            r.is_ok() ==> final(tx).input@[input_index as int].witness_view() == seq![
                p2wsh_signature(tweaked_secret_key@, old(tx).unsigned(), input_index as int, witness_script@, amount),
                seq![1u8],
                witness_script@,
            ],
    {
        let selector: Vec<u8> = vec![1u8];
        assert(selector@ =~= seq![1u8]);
        sign_p2wsh_input(tx, input_index, amount, witness_script, &tweaked_secret_key, selector)
    }

    /// Signs input `input_index` through the delayed (`OP_ELSE`) branch of the
    /// challenge script, with the builder's key.
    fn sign_p2wsh_input_challenger(
        &self,
        tx: &mut Transaction,
        input_index: usize,
        amount: u64,
        witness_script: &Vec<u8>,
    ) -> (r: Result<(), TransactionError>)
        ensures
            r.is_ok() <==> input_index < old(tx).input@.len(),
            r.is_err() ==> r->Err_0 == TransactionError::InputIndexOutOfBounds && *final(tx) == *old(tx),
            r.is_ok() ==> final(tx).unsigned() == old(tx).unsigned() && final(tx).version == old(tx).version
                && final(tx).lock_time == old(tx).lock_time && final(tx).output@ == old(tx).output@
                && final(tx).input@.len() == old(tx).input@.len(),
            r.is_ok() ==> final(tx).input@[input_index as int].witness_view() == seq![
                p2wsh_signature(self.secret_view(), old(tx).unsigned(), input_index as int, witness_script@, amount),
                Seq::<u8>::empty(),
                witness_script@,
            ],
    {
        let selector: Vec<u8> = Vec::new();
        sign_p2wsh_input(tx, input_index, amount, witness_script, &self.secret_key, selector)
    }

    /// The acceptor sweeps output 0 of the challenge transaction through the
    /// immediate branch. The key it signs with has as public key the
    /// builder's key plus the third-rank commitment of the recovered
    /// first-rank key.
    ///
    /// The key in the witness of the challenge transaction's deposit input is
    /// the challenger's key plus the selected first-rank key; subtracting the
    /// challenger's key recovers the first-rank key, whose SHA-256 is the
    /// second-rank secret. The builder's key plus that secret signs. The
    /// sweep pays the output's value less `fee` to `recipient_pubkey`, else to
    /// the builder's key.
    pub fn sweep_challenge_output_acceptor(
        &self,
        challenge_transaction: &Transaction,
        challenger_pubkey: &PublicKey,
        witness_script: &Vec<u8>,
        recipient_pubkey: Option<PublicKey>,
        fee: u64,
    ) -> (r: Result<Transaction, TransactionError>)
        ensures
            ({
                let outcome = acceptor_sweep_key(self.secret_view(), *challenge_transaction, challenger_pubkey@, fee);
                &&& r.is_ok() <==> outcome.is_ok()
                &&& r.is_err() ==> r->Err_0 == outcome->Err_0
                &&& r.is_ok() ==> {
                    let tx = r.unwrap();
                    let value = challenge_transaction.output@[0].value;
                    &&& is_sweep_of(tx, *challenge_transaction, SEQUENCE_FINAL, change_key(recipient_pubkey, self.public_view()), fee)
                    &&& tx.lock_time == 0
                    &&& key_sum(
                        self.public_view(),
                        third_rank_of(recovered_tweak(*challenge_transaction, challenger_pubkey@).unwrap()),
                    ) == Some(pubkey_of(outcome->Ok_0))
                    &&& tx.input@[0].witness_view() == seq![
                        p2wsh_signature(outcome->Ok_0, tx.unsigned(), 0, witness_script@, value),
                        seq![1u8],
                        witness_script@,
                    ]
                }
            }),
    {
        if challenge_transaction.output.len() == 0 {
            return Err(TransactionError::MissingChallengeOutput);
        }
        let value = challenge_transaction.output[0].value;
        if value < fee {
            return Err(TransactionError::AmountOutOfRange);
        }
        if challenge_transaction.input.len() == 0 || challenge_transaction.input[0].witness.len() < 2 {
            return Err(TransactionError::Secp256k1(CryptoError::InvalidPublicKey));
        }
        let witness_pubkey = match PublicKey::from_slice(challenge_transaction.input[0].witness[1].as_slice()) {
            Some(k) => k,
            None => return Err(TransactionError::Secp256k1(CryptoError::InvalidPublicKey)),
        };
        let negated_challenger_pubkey = negate_key(challenger_pubkey);
        let tweak = match combine_keys(&witness_pubkey, &negated_challenger_pubkey) {
            Ok(k) => k,
            Err(e) => return Err(TransactionError::Secp256k1(e)),
        };
        let second_rank = match second_rank_commitment(&tweak) {
            Ok(k) => k,
            Err(e) => return Err(TransactionError::Secp256k1(e)),
        };
        let tweaked_acceptor_sk = match add_secret_keys(&self.secret_key, &second_rank) {
            Ok(k) => k,
            Err(e) => return Err(TransactionError::Secp256k1(e)),
        };
        let recipient = match recipient_pubkey {
            Some(k) => k,
            None => self.public_key(),
        };
        let txid = challenge_transaction.compute_txid();
        let inputs: Vec<TxIn> = vec![TxIn::new(OutPoint { txid, vout: 0 }, SEQUENCE_FINAL)];
        let swept = value - fee;
        let outputs: Vec<TxOut> = vec![TxOut { value: swept, script_pubkey: create_p2wpkh_script(&recipient) }];
        let mut tx = Transaction::create(inputs, outputs, None);
        assert(tx.unsigned().output =~= seq![OutputModel { value: (value - fee) as u64, script_pubkey: p2wpkh_script_of(recipient@) }]);
        let ghost pre = tx;
        assert(pre.unsigned().input[0] == pre.input@[0].model());
        let signed = self.sign_p2wsh_input_acceptor(&mut tx, 0, value, witness_script, tweaked_acceptor_sk);
        assert(tx.unsigned().input[0] == tx.input@[0].model());
        assert(signed.is_ok());
        assert(tx.input@[0].previous_output.txid@ == txid_of(challenge_transaction.unsigned()));
        assert(tx.unsigned().output =~= seq![OutputModel { value: (value - fee) as u64, script_pubkey: p2wpkh_script_of(recipient@) }]);
        assert(is_sweep_of(tx, *challenge_transaction, SEQUENCE_FINAL, change_key(recipient_pubkey, self.public_view()), fee));
        assert(acceptor_sweep_key(self.secret_view(), *challenge_transaction, challenger_pubkey@, fee) == Ok::<Seq<u8>, TransactionError>(tweaked_acceptor_sk@));
        Ok(tx)
    }

    /// The challenger sweeps output 0 of the challenge transaction through the
    /// delayed branch, with the builder's key. The transaction's lock time is
    /// `lock_time` and its input's sequence number enables lock-time checking,
    /// so it is valid only once `lock_time` is reached. It pays the output's
    /// value less `fee` to `recipient_pubkey`, else to the builder's key.
    pub fn sweep_challenge_output_challenger(
        &self,
        challenge_transaction: &Transaction,
        witness_script: &Vec<u8>,
        lock_time: u32,
        recipient_pubkey: Option<PublicKey>,
        fee: u64,
    ) -> (r: Result<Transaction, TransactionError>)
        ensures
            challenge_transaction.output@.len() == 0 ==> r == Err::<Transaction, TransactionError>(TransactionError::MissingChallengeOutput),
            challenge_transaction.output@.len() > 0 && challenge_transaction.output@[0].value < fee ==> r
                == Err::<Transaction, TransactionError>(TransactionError::AmountOutOfRange),
            r.is_ok() <==> challenge_transaction.output@.len() > 0 && challenge_transaction.output@[0].value >= fee,
            r.is_ok() ==> ({
                let tx = r.unwrap();
                let value = challenge_transaction.output@[0].value;
                &&& is_sweep_of(tx, *challenge_transaction, SEQUENCE_ENABLE_LOCKTIME_NO_RBF, change_key(recipient_pubkey, self.public_view()), fee)
                &&& tx.lock_time == lock_time
                &&& tx.input@[0].witness_view() == seq![
                    p2wsh_signature(self.secret_view(), tx.unsigned(), 0, witness_script@, value),
                    Seq::<u8>::empty(),
                    witness_script@,
                ]
            }),
    {
        if challenge_transaction.output.len() == 0 {
            return Err(TransactionError::MissingChallengeOutput);
        }
        let value = challenge_transaction.output[0].value;
        if value < fee {
            return Err(TransactionError::AmountOutOfRange);
        }
        let recipient = match recipient_pubkey {
            Some(k) => k,
            None => self.public_key(),
        };
        let txid = challenge_transaction.compute_txid();
        let inputs: Vec<TxIn> = vec![TxIn::new(OutPoint { txid, vout: 0 }, SEQUENCE_ENABLE_LOCKTIME_NO_RBF)];
        let swept = value - fee;
        let outputs: Vec<TxOut> = vec![TxOut { value: swept, script_pubkey: create_p2wpkh_script(&recipient) }];
        let mut tx = Transaction::create(inputs, outputs, Some(lock_time));
        assert(tx.unsigned().output =~= seq![OutputModel { value: (value - fee) as u64, script_pubkey: p2wpkh_script_of(recipient@) }]);
        let ghost pre = tx;
        assert(pre.unsigned().input[0] == pre.input@[0].model());
        let signed = self.sign_p2wsh_input_challenger(&mut tx, 0, value, witness_script);
        assert(tx.unsigned().input[0] == tx.input@[0].model());
        assert(signed.is_ok());
        assert(tx.input@[0].previous_output.txid@ == txid_of(challenge_transaction.unsigned()));
        assert(tx.unsigned().output =~= seq![OutputModel { value: (value - fee) as u64, script_pubkey: p2wpkh_script_of(recipient@) }]);
        assert(is_sweep_of(tx, *challenge_transaction, SEQUENCE_ENABLE_LOCKTIME_NO_RBF, change_key(recipient_pubkey, self.public_view()), fee));
        Ok(tx)
    }
}

/// Inputs spending `previous_outputs`, and the amount each spends.
fn inputs_of(previous_outputs: &Vec<(OutPoint, u64)>) -> (r: (Vec<TxIn>, Vec<u64>))
    ensures
        r.0@.len() == previous_outputs@.len(),
        r.1@.len() == previous_outputs@.len(),
        r.0@.map_values(|i: TxIn| i.model()) == spends(previous_outputs@),
        forall|k: int| 0 <= k < r.0@.len() ==> #[trigger] r.0@[k].witness@.len() == 0,
        forall|k: int| 0 <= k < r.1@.len() ==> #[trigger] r.1@[k] == previous_outputs@[k].1,
{
    let mut inputs: Vec<TxIn> = Vec::new();
    let mut amounts: Vec<u64> = Vec::new();
    let mut i: usize = 0;
    while i < previous_outputs.len()
        invariant
            i <= previous_outputs@.len(),
            inputs@.len() == i,
            amounts@.len() == i,
            forall|k: int| 0 <= k < i ==> #[trigger] inputs@[k].model() == spends(previous_outputs@)[k],
            forall|k: int| 0 <= k < i ==> #[trigger] inputs@[k].witness@.len() == 0,
            forall|k: int| 0 <= k < i ==> #[trigger] amounts@[k] == previous_outputs@[k].1,
        decreases previous_outputs@.len() - i,
    {
        let ghost old_inputs = inputs@;
        inputs.push(TxIn::new(previous_outputs[i].0, SEQUENCE_FINAL));
        amounts.push(previous_outputs[i].1);
        assert(inputs@[i as int].witness@.len() == 0);
        assert forall|k: int| 0 <= k < i + 1 implies #[trigger] inputs@[k].witness@.len() == 0 by {
            if k < i {
                assert(inputs@[k] == old_inputs[k]);
                assert(old_inputs[k].witness@.len() == 0);
            } else {
                assert(k == i);
            }
        }
        i = i + 1;
    }
    assert(inputs@.map_values(|i: TxIn| i.model()) =~= spends(previous_outputs@));
    (inputs, amounts)
}

} // verus!
