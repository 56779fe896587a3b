//! A second layout of the game, built from public keys alone: a deposit
//! transaction paying to the builder's key, an initial transaction that moves
//! the deposit to the builder's key plus a tweak, and a closing transaction
//! that spends an initial output together with the deposit into the
//! challenge script. A signer with one private key signs P2WPKH inputs of
//! such transactions.

use crate::builder::{p2wpkh_signature, p2wpkh_witness, sig_added, signature_verifies, sigs_view, TransactionBuilder as Signer};
use crate::crypto::{key_sum, pubkey_of, secret_sum, CryptoError, PublicKey, SecretKey};
use crate::errors::TransactionError;
use crate::psbt::{Psbt, stack_view};
use crate::script::{
    challenge_script_of, copy_bytes, create_close_output_script, create_init_output_script,
    create_p2wpkh_script, p2wpkh_script_of, p2wsh_script_of,
};
use crate::tx::{InputModel, OutPoint, OutputModel, Transaction, TxIn, TxOut, txid_of, SEQUENCE_ENABLE_LOCKTIME_NO_RBF, SEQUENCE_FINAL};
use vstd::prelude::*;

verus! {

/// A copy of a witness stack.
fn copy_stack(w: &Vec<Vec<u8>>) -> (r: Vec<Vec<u8>>)
    ensures
        stack_view(r@) == stack_view(w@),
{
    let mut r: Vec<Vec<u8>> = Vec::new();
    let mut i: usize = 0;
    while i < w.len()
        invariant
            i <= w@.len(),
            stack_view(r@) == stack_view(w@.subrange(0, i as int)),
        decreases w@.len() - i,
    {
        let ghost before = r@;
        let c = copy_bytes(&w[i]);
        r.push(c);
        assert(stack_view(r@) =~= stack_view(before).push(c@));
        assert(w@.subrange(0, i + 1) =~= w@.subrange(0, i as int).push(w@[i as int]));
        assert(stack_view(w@.subrange(0, i + 1)) =~= stack_view(w@.subrange(0, i as int)).push(w@[i as int]@));
        i = i + 1;
    }
    assert(w@.subrange(0, w@.len() as int) =~= w@);
    r
}

/// A copy of an input.
pub fn copy_txin(i: &TxIn) -> (r: TxIn)
    ensures
        r.previous_output == i.previous_output,
        r.sequence == i.sequence,
        r.witness_view() == i.witness_view(),
{
    TxIn { previous_output: i.previous_output, sequence: i.sequence, witness: copy_stack(&i.witness) }
}

/// A version-1 transaction without lock time whose inputs spend `input_points`
/// with lock-time checking enabled, and whose one output pays `value` to
/// `script_pubkey`.
pub fn create_unsigned_deposit_tx(input_points: Vec<OutPoint>, value: u64, script_pubkey: Vec<u8>) -> (r: Transaction)
    ensures
        r.version == 1,
        r.lock_time == 0,
        r.unsigned().input == input_points@.map_values(
            |p: OutPoint| InputModel { previous_output: p, sequence: SEQUENCE_ENABLE_LOCKTIME_NO_RBF },
        ),
        r.unsigned().output == seq![OutputModel { value, script_pubkey: script_pubkey@ }],
        forall|k: int| 0 <= k < r.input@.len() ==> #[trigger] r.input@[k].witness@.len() == 0,
{
    let mut input: Vec<TxIn> = Vec::new();
    let mut i: usize = 0;
    while i < input_points.len()
        invariant
            i <= input_points@.len(),
            input@.len() == i,
            forall|k: int| 0 <= k < i ==> #[trigger] input@[k].model() == (InputModel {
                previous_output: input_points@[k],
                sequence: SEQUENCE_ENABLE_LOCKTIME_NO_RBF,
            }),
            forall|k: int| 0 <= k < i ==> #[trigger] input@[k].witness@.len() == 0,
        decreases input_points@.len() - i,
    {
        let ghost before = input@;
        input.push(TxIn::new(input_points[i], SEQUENCE_ENABLE_LOCKTIME_NO_RBF));
        assert forall|k: int| 0 <= k < i + 1 implies #[trigger] input@[k].witness@.len() == 0 by {
            if k < i {
                assert(input@[k] == before[k]);
            }
        }
        i = i + 1;
    }
    let tx = Transaction::create(input, vec![TxOut { value, script_pubkey }], None);
    assert(tx.unsigned().input =~= input_points@.map_values(
        |p: OutPoint| InputModel { previous_output: p, sequence: SEQUENCE_ENABLE_LOCKTIME_NO_RBF },
    ));
    assert(tx.unsigned().output =~= seq![OutputModel { value, script_pubkey: script_pubkey@ }]);
    tx
}

/// A version-1 transaction without lock time, spending `out_point` with
/// lock-time checking enabled, paying `value` to `script_pubkey`.
pub fn create_unsigned_initial_tx(out_point: OutPoint, value: u64, script_pubkey: Vec<u8>) -> (r: Transaction)
    ensures
        r.version == 1,
        r.lock_time == 0,
        r.unsigned().input == seq![InputModel { previous_output: out_point, sequence: SEQUENCE_ENABLE_LOCKTIME_NO_RBF }],
        r.unsigned().output == seq![OutputModel { value, script_pubkey: script_pubkey@ }],
        r.input@.len() == 1 && r.input@[0].witness@.len() == 0,
{
    let input: Vec<TxIn> = vec![TxIn::new(out_point, SEQUENCE_ENABLE_LOCKTIME_NO_RBF)];
    let tx = Transaction::create(input, vec![TxOut { value, script_pubkey }], None);
    assert(tx.unsigned().input =~= seq![InputModel { previous_output: out_point, sequence: SEQUENCE_ENABLE_LOCKTIME_NO_RBF }]);
    assert(tx.unsigned().output =~= seq![OutputModel { value, script_pubkey: script_pubkey@ }]);
    tx
}

/// A version-1 transaction with lock time `lock_time`, spending the initial
/// output and the deposit output with lock-time checking enabled, paying
/// `value` to `script_pubkey`.
pub fn create_unsigned_closing_tx(
    init_out_point: OutPoint,
    dep_out_point: OutPoint,
    lock_time: u32,
    value: u64,
    script_pubkey: Vec<u8>,
) -> (r: Transaction)
    ensures
        r.version == 1,
        r.lock_time == lock_time,
        r.unsigned().input == seq![
            InputModel { previous_output: init_out_point, sequence: SEQUENCE_ENABLE_LOCKTIME_NO_RBF },
            InputModel { previous_output: dep_out_point, sequence: SEQUENCE_ENABLE_LOCKTIME_NO_RBF },
        ],
        r.unsigned().output == seq![OutputModel { value, script_pubkey: script_pubkey@ }],
{
    let input: Vec<TxIn> = vec![
        TxIn::new(init_out_point, SEQUENCE_ENABLE_LOCKTIME_NO_RBF),
        TxIn::new(dep_out_point, SEQUENCE_ENABLE_LOCKTIME_NO_RBF),
    ];
    let tx = Transaction::create(input, vec![TxOut { value, script_pubkey }], Some(lock_time));
    assert(tx.unsigned().input =~= seq![
        InputModel { previous_output: init_out_point, sequence: SEQUENCE_ENABLE_LOCKTIME_NO_RBF },
        InputModel { previous_output: dep_out_point, sequence: SEQUENCE_ENABLE_LOCKTIME_NO_RBF },
    ]);
    assert(tx.unsigned().output =~= seq![OutputModel { value, script_pubkey: script_pubkey@ }]);
    tx
}

/// Builds the deposit, initial and closing transactions around one public
/// key and a stored deposit input.
#[derive(Clone, Debug)]
pub struct TransactionBuilder {
    public_key: PublicKey,
    deposit_txin: Option<TxIn>,
}

impl TransactionBuilder {
    pub closed spec fn public_view(&self) -> Seq<u8> {
        self.public_key@
    }

    /// The stored deposit input: what it spends, its sequence number and its
    /// witness.
    pub closed spec fn deposit_view(&self) -> Option<(InputModel, Seq<Seq<u8>>)> {
        match self.deposit_txin {
            Some(i) => Some((i.model(), i.witness_view())),
            None => None,
        }
    }

    /// A builder around `public_key`, with no deposit input yet.
    pub fn from_pubkey(public_key: PublicKey) -> (r: TransactionBuilder)
        ensures
            r.public_view() == public_key@,
            r.deposit_view().is_none(),
    {
        TransactionBuilder { public_key, deposit_txin: None }
    }

    /// Stores `txin` as the deposit input, in place of any stored before.
    pub fn set_deposit_txin(&mut self, txin: TxIn)
        ensures
            final(self).public_view() == old(self).public_view(),
            final(self).deposit_view() == Some((txin.model(), txin.witness_view())),
    {
        self.deposit_txin = Some(txin);
    }

    /// The deposit transaction: spends `input` and pays `amount` to the
    /// builder's key. Its output 0 becomes the stored deposit input.
    pub fn build_and_set_deposit_tx(&mut self, input: Vec<TxIn>, amount: u64) -> (r: Result<Transaction, TransactionError>)
        ensures
            r.is_ok(),
            final(self).public_view() == old(self).public_view(),
            ({
                let tx = r.unwrap();
                &&& tx.version == 1
                &&& tx.lock_time == 0
                &&& tx.input@ == input@
                &&& tx.unsigned().output == seq![OutputModel { value: amount, script_pubkey: p2wpkh_script_of(old(self).public_view()) }]
                &&& final(self).deposit_view() matches Some((m, w)) && m.previous_output.txid@ == txid_of(tx.unsigned())
                    && m.previous_output.vout == 0 && m.sequence == SEQUENCE_FINAL && w.len() == 0
            }),
    {
        let script = create_p2wpkh_script(&self.public_key);
        let tx = Transaction::create(input, vec![TxOut { value: amount, script_pubkey: script }], None);
        assert(tx.unsigned().output =~= seq![OutputModel { value: amount, script_pubkey: p2wpkh_script_of(self.public_view()) }]);
        let txid = tx.compute_txid();
        let txin = TxIn::new(OutPoint { txid, vout: 0 }, SEQUENCE_FINAL);
        assert(txin.witness_view() =~= Seq::<Seq<u8>>::empty());
        self.deposit_txin = Some(txin);
        Ok(tx)
    }

    /// The initial transaction: spends the stored deposit input and pays
    /// `amount` to the builder's key plus `tweak_value`.
    pub fn build_initial_tx(&self, tweak_value: &PublicKey, amount: u64) -> (r: Result<Transaction, TransactionError>)
        ensures
            self.deposit_view().is_none() ==> r == Err::<Transaction, TransactionError>(TransactionError::NoDepositTxStored),
            self.deposit_view().is_some() ==> (r.is_ok() <==> key_sum(self.public_view(), tweak_value@).is_some()),
            self.deposit_view().is_some() && r.is_err() ==> r->Err_0 == TransactionError::Secp256k1(CryptoError::InvalidPublicKeySum),
            r.is_ok() ==> ({
                let tx = r.unwrap();
                let (m, w) = self.deposit_view().unwrap();
                &&& tx.version == 1
                &&& tx.lock_time == 0
                &&& tx.unsigned().input == seq![m]
                &&& tx.input@[0].witness_view() == w
                &&& tx.unsigned().output == seq![OutputModel {
                    value: amount,
                    script_pubkey: p2wpkh_script_of(key_sum(self.public_view(), tweak_value@).unwrap()),
                }]
            }),
    {
        let deposit = match &self.deposit_txin {
            Some(d) => d,
            None => return Err(TransactionError::NoDepositTxStored),
        };
        let script = create_init_output_script(&self.public_key, tweak_value)?;
        let tx = Transaction::create(vec![copy_txin(deposit)], vec![TxOut { value: amount, script_pubkey: script }], None);
        assert(tx.unsigned().input =~= seq![deposit.model()]);
        assert(tx.unsigned().output =~= seq![OutputModel {
            value: amount,
            script_pubkey: p2wpkh_script_of(key_sum(self.public_view(), tweak_value@).unwrap()),
        }]);
        Ok(tx)
    }

    /// The closing transaction, unsigned: spends `input_from_initial` and the
    /// stored deposit input, and pays `amount` to the challenge script over
    /// `challenger_pubkey`, the builder's key plus `tweak_value`, and
    /// `lock_time`. Neither input may carry a witness yet.
    pub fn build_closing_tx(
        &self,
        input_from_initial: TxIn,
        challenger_pubkey: &PublicKey,
        tweak_value: &PublicKey,
        amount: u64,
        lock_time: u32,
    ) -> (r: Result<Psbt, TransactionError>)
        ensures
            self.deposit_view().is_none() ==> r == Err::<Psbt, TransactionError>(TransactionError::NoDepositTxStored),
            self.deposit_view().is_some() && key_sum(self.public_view(), tweak_value@).is_none() ==> r
                == Err::<Psbt, TransactionError>(TransactionError::Secp256k1(CryptoError::InvalidPublicKeySum)),
            r.is_ok() <==> self.deposit_view().is_some() && key_sum(self.public_view(), tweak_value@).is_some()
                && input_from_initial.witness@.len() == 0 && self.deposit_view().unwrap().1.len() == 0,
            self.deposit_view().is_some() && key_sum(self.public_view(), tweak_value@).is_some() && r.is_err() ==> r->Err_0
                == TransactionError::UnsignedTxHasWitness,
            r.is_ok() ==> ({
                let tx = r.unwrap().unsigned_tx;
                let tweaked = key_sum(self.public_view(), tweak_value@).unwrap();
                &&& r.unwrap().wf()
                &&& tx.version == 1
                &&& tx.lock_time == 0
                &&& tx.unsigned().input == seq![input_from_initial.model(), self.deposit_view().unwrap().0]
                &&& tx.unsigned().output == seq![OutputModel {
                    value: amount,
                    script_pubkey: p2wsh_script_of(challenge_script_of(challenger_pubkey@, tweaked, lock_time)),
                }]
            }),
    {
        let deposit = match &self.deposit_txin {
            Some(d) => d,
            None => return Err(TransactionError::NoDepositTxStored),
        };
        let script = create_close_output_script(challenger_pubkey, &self.public_key, tweak_value, lock_time)?;
        let ghost first = input_from_initial;
        let deposit_copy = copy_txin(deposit);
        let tx = Transaction::create(
            vec![input_from_initial, deposit_copy],
            vec![TxOut { value: amount, script_pubkey: script }],
            None,
        );
        assert(tx.unsigned().input =~= seq![first.model(), deposit.model()]);
        assert(tx.unsigned().output =~= seq![OutputModel {
            value: amount,
            script_pubkey: p2wsh_script_of(challenge_script_of(challenger_pubkey@, key_sum(self.public_view(), tweak_value@).unwrap(), lock_time)),
        }]);
        assert(tx.input@[1].witness@.len() == deposit.witness_view().len());
        let r = Psbt::from_unsigned_tx(tx);
        proof {
            if r.is_ok() {
                assert(tx.input@[0].witness@.len() == 0);
                assert(tx.input@[1].witness@.len() == 0);
            }
        }
        r
    }
}

/// The sum of two secret keys modulo the curve order: the key that signs for
/// the sum of their public keys. An error where the sum is zero.
pub fn combine_secret_keys(base: &SecretKey, tweak: &SecretKey) -> (r: Result<SecretKey, CryptoError>)
    ensures
        r.is_ok() <==> secret_sum(base@, tweak@).is_some(),
        r.is_ok() ==> secret_sum(base@, tweak@) == Some(r.unwrap()@),
        r.is_ok() ==> key_sum(pubkey_of(base@), pubkey_of(tweak@)) == Some(pubkey_of(r.unwrap()@)),
        r.is_err() ==> r->Err_0 == CryptoError::InvalidTweak,
{
    base.add_tweak(tweak)
}

/// Signs P2WPKH inputs with one private key.
#[derive(Clone, Copy, Debug)]
pub struct TransactionSigner {
    signer: Signer,
}

impl TransactionSigner {
    pub closed spec fn secret_view(&self) -> Seq<u8> {
        self.signer.secret_view()
    }

    /// A signer with `private_key`.
    pub fn new(private_key: SecretKey) -> (r: TransactionSigner)
        ensures
            r.secret_view() == private_key@,
    {
        TransactionSigner { signer: Signer::new(private_key) }
    }

    /// Signs input `input_index` of the partially signed transaction as a
    /// spend of `txout` under the signer's key: adds the partial signature,
    /// records the output spent and sets the sighash flag ALL where none is
    /// set.
    pub fn sign_psbt_input(&self, psbt: &mut Psbt, input_index: usize, txout: &TxOut) -> (r: Result<(), TransactionError>)
        ensures
            r.is_ok() <==> input_index < old(psbt).inputs@.len() && input_index < old(psbt).unsigned_tx.input@.len(),
            r.is_err() ==> r->Err_0 == TransactionError::InputIndexOutOfBounds && *final(psbt) == *old(psbt),
            r.is_ok() ==> final(psbt).unsigned_tx == old(psbt).unsigned_tx,
            r.is_ok() ==> final(psbt).inputs@.len() == old(psbt).inputs@.len(),
            r.is_ok() ==> forall|j: int|
                0 <= j < final(psbt).inputs@.len() && j != input_index ==> #[trigger] final(psbt).inputs@[j]
                    == old(psbt).inputs@[j],
            r.is_ok() ==> ({
                let k = self.secret_view();
                let before = old(psbt).inputs@[input_index as int];
                let after = final(psbt).inputs@[input_index as int];
                let sig = p2wpkh_signature(k, old(psbt).unsigned_tx.unsigned(), input_index as int, txout.value);
                &&& sig_added(sigs_view(before.partial_sigs@), sigs_view(after.partial_sigs@), (pubkey_of(k), sig))
                &&& after.witness_utxo.is_some()
                &&& after.witness_utxo.unwrap().model() == (OutputModel { value: txout.value, script_pubkey: p2wpkh_script_of(pubkey_of(k)) })
                &&& after.sighash_type == (if before.sighash_type.is_none() { Some(1u32) } else { before.sighash_type })
                &&& signature_verifies(k, old(psbt).unsigned_tx.unsigned(), input_index as int, txout.value)
            }),
    {
        self.signer.sign_psbt_input(psbt, input_index, txout.value, None)
    }

    /// Signs every input of `tx` under the signer's key, input `i` spending
    /// `txouts[i]`; an error where the counts differ.
    pub fn sign_multi_input(&self, tx: &mut Transaction, txouts: Vec<TxOut>) -> (r: Result<(), TransactionError>)
        ensures
            r.is_ok() <==> old(tx).input@.len() == txouts@.len(),
            r.is_err() ==> r->Err_0 == TransactionError::InputsOutputsLengthMismatch && *final(tx) == *old(tx),
            r.is_ok() ==> final(tx).unsigned() == old(tx).unsigned() && final(tx).version == old(tx).version
                && final(tx).lock_time == old(tx).lock_time && final(tx).output@ == old(tx).output@
                && final(tx).input@.len() == old(tx).input@.len(),
            r.is_ok() ==> forall|i: int|
                0 <= i < txouts@.len() ==> #[trigger] final(tx).input@[i].witness_view() == p2wpkh_witness(
                    self.secret_view(),
                    old(tx).unsigned(),
                    i,
                    txouts@[i].value,
                ),
    {
        let mut amounts: Vec<u64> = Vec::new();
        let mut i: usize = 0;
        while i < txouts.len()
            invariant
                i <= txouts@.len(),
                amounts@.len() == i,
                forall|k: int| 0 <= k < i ==> #[trigger] amounts@[k] == txouts@[k].value,
            decreases txouts@.len() - i,
        {
            amounts.push(txouts[i].value);
            i = i + 1;
        }
        self.signer.sign_transaction(tx, amounts)
    }
}

} // verus!
