//! A partially signed transaction as a plain value: the unsigned transaction,
//! and for each input the partial signatures collected so far, the output it
//! spends and, once finalized, its witness stack.
//!
//! Every input is spent as P2WPKH: an input is satisfied by a partial
//! signature under a key whose P2WPKH script is the one of the output spent,
//! whose signature carries the flag ALL and verifies for the input's
//! signature hash.

use crate::crypto::{ecdsa_verifies, verify_signature, PublicKey};
use crate::errors::TransactionError;
use crate::script::{create_p2wpkh_script, p2wpkh_script_of};
use crate::tx::{p2wpkh_sighash, p2wpkh_sighash_of, set_witness, Transaction, TxOut, UnsignedModel, SIGHASH_ALL};
use vstd::prelude::*;

verus! {

/// A signature under `public_key`: DER encoding followed by the sighash flag.
#[derive(Clone, Debug)]
pub struct PartialSig {
    pub public_key: PublicKey,
    pub signature: Vec<u8>,
}

/// What is known of one input.
#[derive(Clone, Debug)]
pub struct PsbtInput {
    pub partial_sigs: Vec<PartialSig>,
    pub witness_utxo: Option<TxOut>,
    pub sighash_type: Option<u32>,
}

/// A transaction on its way to being signed by several parties.
#[derive(Clone, Debug)]
pub struct Psbt {
    pub unsigned_tx: Transaction,
    pub inputs: Vec<PsbtInput>,
}

/// The witness stack as byte strings.
pub open spec fn stack_view(w: Seq<Vec<u8>>) -> Seq<Seq<u8>> {
    w.map_values(|e: Vec<u8>| e@)
}

impl PsbtInput {
    /// Nothing known yet.
    pub open spec fn is_empty(&self) -> bool {
        &&& self.partial_sigs@.len() == 0
        &&& self.witness_utxo.is_none()
        &&& self.sighash_type.is_none()
    }

    /// Whether partial signature `j` satisfies this input, input `i` of
    /// `tx`: its key pays to the output spent, and its signature is the flag
    /// ALL after a DER signature that verifies under that key for the
    /// input's signature hash.
    pub open spec fn satisfied_by(&self, tx: UnsignedModel, i: int, j: int) -> bool {
        let sig = self.partial_sigs@[j].signature@;
        let key = self.partial_sigs@[j].public_key@;
        let utxo = self.witness_utxo.unwrap();
        &&& 0 <= i < tx.input.len()
        &&& 0 <= j < self.partial_sigs@.len()
        &&& self.witness_utxo.is_some()
        &&& p2wpkh_script_of(key) == utxo.script_pubkey@
        &&& sig.len() > 0
        &&& sig.last() == SIGHASH_ALL
        &&& ecdsa_verifies(key, p2wpkh_sighash_of(tx, i, utxo.script_pubkey@, utxo.value), sig.drop_last())
    }

    /// The witness stack that partial signature `j` gives: signature, key.
    pub open spec fn witness_of(&self, j: int) -> Seq<Seq<u8>> {
        seq![self.partial_sigs@[j].signature@, self.partial_sigs@[j].public_key@]
    }

    /// Whether `w` is the witness stack of the first partial signature that
    /// satisfies the input.
    pub open spec fn finalizes_to(&self, tx: UnsignedModel, i: int, w: Seq<Seq<u8>>) -> bool {
        exists|j: int|
            #[trigger] self.satisfied_by(tx, i, j) && (forall|k: int| 0 <= k < j ==> !#[trigger] self.satisfied_by(tx, i, k))
                && w == self.witness_of(j)
    }

    /// Whether some partial signature satisfies the input.
    pub open spec fn satisfiable(&self, tx: UnsignedModel, i: int) -> bool {
        exists|j: int| self.satisfied_by(tx, i, j)
    }
}

impl Psbt {
    /// One entry per input of the unsigned transaction.
    pub open spec fn wf(&self) -> bool {
        self.inputs@.len() == self.unsigned_tx.input@.len()
    }

    /// Starts from a transaction that carries no witness: an error otherwise.
    pub fn from_unsigned_tx(tx: Transaction) -> (r: Result<Psbt, TransactionError>)
        ensures
            r.is_ok() <==> forall|i: int| 0 <= i < tx.input@.len() ==> #[trigger] tx.input@[i].witness@.len() == 0,
            r.is_ok() ==> r.unwrap().unsigned_tx == tx,
            r.is_ok() ==> r.unwrap().wf(),
            r.is_ok() ==> forall|i: int| 0 <= i < r.unwrap().inputs@.len() ==> #[trigger] r.unwrap().inputs@[i].is_empty(),
            r.is_err() ==> r->Err_0 == TransactionError::UnsignedTxHasWitness,
    {
        let mut inputs: Vec<PsbtInput> = Vec::new();
        let mut i: usize = 0;
        while i < tx.input.len()
            invariant
                i <= tx.input@.len(),
                inputs@.len() == i,
                forall|k: int| 0 <= k < i ==> #[trigger] tx.input@[k].witness@.len() == 0,
                forall|k: int| 0 <= k < i ==> #[trigger] inputs@[k].is_empty(),
            decreases tx.input@.len() - i,
        {
            if tx.input[i].witness.len() != 0 {
                return Err(TransactionError::UnsignedTxHasWitness);
            }
            inputs.push(PsbtInput {
                partial_sigs: Vec::new(),
                witness_utxo: None,
                sighash_type: None,
            });
            i = i + 1;
        }
        Ok(Psbt { unsigned_tx: tx, inputs })
    }

    /// Whether input `i` is satisfied by one of its partial signatures.
    pub open spec fn input_satisfiable(&self, i: int) -> bool {
        self.inputs@[i].satisfiable(self.unsigned_tx.unsigned(), i)
    }

    /// Whether every input is satisfied by one of its partial signatures.
    pub open spec fn complete(&self) -> bool {
        forall|i: int| 0 <= i < self.inputs@.len() ==> #[trigger] self.input_satisfiable(i)
    }

    /// `v` lists exactly the inputs that no partial signature satisfies.
    pub open spec fn unsatisfied_are(&self, v: Seq<usize>) -> bool {
        forall|i: int| 0 <= i < self.inputs@.len() ==> (!#[trigger] self.input_satisfiable(i) <==> v.contains(i as usize))
    }

    /// Input `i` finalizes to the witness stack `w`.
    pub open spec fn input_finalizes_to(&self, i: int, w: Seq<Seq<u8>>) -> bool {
        self.inputs@[i].finalizes_to(self.unsigned_tx.unsigned(), i, w)
    }

    /// The witness stack of each input, or the inputs that no partial
    /// signature satisfies.
    pub fn finalize(&self) -> (r: Result<Vec<Vec<Vec<u8>>>, Vec<usize>>)
        ensures
            r.is_ok() <==> self.complete(),
            r.is_ok() ==> r.unwrap()@.len() == self.inputs@.len(),
            r.is_ok() ==> forall|i: int|
                0 <= i < self.inputs@.len() ==> #[trigger] self.input_finalizes_to(i, stack_view(r.unwrap()@[i]@)),
            r.is_err() ==> self.unsatisfied_are(r->Err_0@),
    {
        let mut witnesses: Vec<Vec<Vec<u8>>> = Vec::new();
        let mut failed: Vec<usize> = Vec::new();
        let mut i: usize = 0;
        while i < self.inputs.len()
            invariant
                i <= self.inputs@.len(),
                failed@.len() == 0 ==> witnesses@.len() == i,
                failed@.len() == 0 ==> forall|k: int|
                    0 <= k < i ==> #[trigger] self.input_finalizes_to(k, stack_view(witnesses@[k]@)),
                forall|k: int| 0 <= k < i ==> (!#[trigger] self.input_satisfiable(k)
                    <==> failed@.contains(k as usize)),
                forall|k: int| 0 <= k < failed@.len() ==> #[trigger] failed@[k] < i,
            decreases self.inputs@.len() - i,
        {
            let ghost old_failed = failed@;
            match finalize_input(self, i) {
                Some(w) => {
                    witnesses.push(w);
                    assert(!failed@.contains(i));
                },
                None => {
                    failed.push(i);
                    assert(failed@[failed@.len() - 1] == i);
                    assert forall|k: int| 0 <= k < i implies (#[trigger] failed@.contains(k as usize)
                        <==> old_failed.contains(k as usize)) by {
                        if old_failed.contains(k as usize) {
                            let m = choose|m: int| 0 <= m < old_failed.len() && old_failed[m] == k as usize;
                            assert(failed@[m] == k as usize);
                        }
                    }
                },
            }
            i = i + 1;
        }
        if failed.len() == 0 {
            assert forall|k: int| 0 <= k < self.inputs@.len() implies #[trigger] self.input_satisfiable(k) by {
                assert(!failed@.contains(k as usize));
            }
            Ok(witnesses)
        } else {
            let k = failed[0];
            assert(failed@.contains(k));
            assert(!self.input_satisfiable(k as int));
            Err(failed)
        }
    }

    /// The signed transaction: the unsigned one with the witness stack of each
    /// input.
    pub fn extract_tx(self) -> (r: Result<Transaction, TransactionError>)
        ensures
            r.is_ok() <==> self.wf() && self.complete(),
            r.is_ok() ==> r.unwrap().unsigned() == self.unsigned_tx.unsigned(),
            r.is_ok() ==> r.unwrap().version == self.unsigned_tx.version && r.unwrap().lock_time
                == self.unsigned_tx.lock_time && r.unwrap().output@ == self.unsigned_tx.output@,
            r.is_ok() ==> r.unwrap().input@.len() == self.inputs@.len(),
            r.is_ok() ==> forall|i: int|
                0 <= i < self.inputs@.len() ==> #[trigger] self.input_finalizes_to(i, r.unwrap().input@[i].witness_view()),
            r.is_err() ==> r->Err_0 is ExtractTransactionFailed && self.unsatisfied_are(
                r->Err_0->ExtractTransactionFailed_0@,
            ),
    {
        let mut witnesses = match self.finalize() {
            Ok(w) => w,
            Err(failed) => return Err(TransactionError::ExtractTransactionFailed(failed)),
        };
        if self.inputs.len() != self.unsigned_tx.input.len() {
            let none: Vec<usize> = Vec::new();
            assert(self.unsatisfied_are(none@));
            return Err(TransactionError::ExtractTransactionFailed(none));
        }
        let ghost all = witnesses@;
        let n = witnesses.len();
        let mut tx = self.unsigned_tx;
        let mut i: usize = n;
        while i > 0
            invariant
                i <= n,
                n == self.inputs@.len(),
                tx.input@.len() == n,
                witnesses@ == all.subrange(0, i as int),
                all.len() == n,
                tx.unsigned() == self.unsigned_tx.unsigned(),
                tx.version == self.unsigned_tx.version,
                tx.lock_time == self.unsigned_tx.lock_time,
                tx.output@ == self.unsigned_tx.output@,
                forall|k: int| i <= k < n ==> #[trigger] tx.input@[k].witness@ == all[k]@,
            decreases i,
        {
            let w = witnesses.pop().unwrap();
            i = i - 1;
            set_witness(&mut tx, i, w);
            assert(witnesses@ =~= all.subrange(0, i as int));
        }
        assert forall|k: int| 0 <= k < n implies #[trigger] self.input_finalizes_to(k, tx.input@[k].witness_view()) by {
            assert(tx.input@[k].witness_view() =~= stack_view(all[k]@));
        }
        Ok(tx)
    }
}

/// Adds `sig` to the partial signatures, replacing the one under the same key
/// if there is one.
pub fn insert_partial_sig(sigs: &mut Vec<PartialSig>, sig: PartialSig)
    ensures
        (forall|j: int| 0 <= j < old(sigs)@.len() ==> #[trigger] old(sigs)@[j].public_key@ != sig.public_key@)
            ==> final(sigs)@ == old(sigs)@.push(sig),
        (exists|j: int| 0 <= j < old(sigs)@.len() && #[trigger] old(sigs)@[j].public_key@ == sig.public_key@)
            ==> exists|j: int|
            0 <= j < old(sigs)@.len() && old(sigs)@[j].public_key@ == sig.public_key@ && (forall|k: int|
                0 <= k < j ==> #[trigger] old(sigs)@[k].public_key@ != sig.public_key@) && final(sigs)@
                == #[trigger] old(sigs)@.update(j, sig),
{
    let mut i: usize = 0;
    while i < sigs.len()
        invariant
            i <= sigs@.len(),
            sigs@ == old(sigs)@,
            forall|k: int| 0 <= k < i ==> #[trigger] sigs@[k].public_key@ != sig.public_key@,
        decreases sigs@.len() - i,
    {
        if sigs[i].public_key.same_key(&sig.public_key) {
            sigs.set(i, sig);
            return;
        }
        i = i + 1;
    }
    sigs.push(sig);
}

/// The witness stack that satisfies input `i`, if any: the first partial
/// signature that satisfies it.
pub fn finalize_input(psbt: &Psbt, i: usize) -> (r: Option<Vec<Vec<u8>>>)
    requires
        i < psbt.inputs@.len(),
    ensures
        r.is_some() <==> psbt.input_satisfiable(i as int),
        r.is_some() ==> psbt.input_finalizes_to(i as int, stack_view(r.unwrap()@)),
{
    let input = &psbt.inputs[i];
    let ghost tx = psbt.unsigned_tx.unsigned();
    if i >= psbt.unsigned_tx.input.len() {
        return None;
    }
    let utxo = match &input.witness_utxo {
        Some(u) => u,
        None => return None,
    };
    let mut j: usize = 0;
    while j < input.partial_sigs.len()
        invariant
            j <= input.partial_sigs@.len(),
            i < psbt.unsigned_tx.input@.len(),
            tx == psbt.unsigned_tx.unsigned(),
            *input == psbt.inputs@[i as int],
            input.witness_utxo == Some(*utxo),
            forall|k: int| 0 <= k < j ==> !#[trigger] input.satisfied_by(tx, i as int, k),
        decreases input.partial_sigs@.len() - j,
    {
        let key = &input.partial_sigs[j].public_key;
        let sig = &input.partial_sigs[j].signature;
        let script = create_p2wpkh_script(key);
        let n = sig.len();
        if bytes_equal(script.as_slice(), utxo.script_pubkey.as_slice()) && n > 0 && sig[n - 1] == SIGHASH_ALL {
            assert(crate::tx::is_p2wpkh_script(utxo.script_pubkey@));
            let digest = p2wpkh_sighash(&psbt.unsigned_tx, i, &utxo.script_pubkey, utxo.value);
            let der = vstd::slice::slice_subrange(sig.as_slice(), 0, n - 1);
            assert(der@ =~= sig@.drop_last());
            if verify_signature(key, &digest, der) {
                let w: Vec<Vec<u8>> = vec![sig.clone(), key.to_vec()];
                assert(input.satisfied_by(tx, i as int, j as int));
                assert(stack_view(w@) =~= input.witness_of(j as int));
                assert(input.finalizes_to(tx, i as int, stack_view(w@)));
                return Some(w);
            }
        }
        j = j + 1;
    }
    None
}

/// Whether two byte strings are equal.
pub fn bytes_equal(a: &[u8], b: &[u8]) -> (r: bool)
    ensures
        r <==> a@ == b@,
{
    if a.len() != b.len() {
        return false;
    }
    let mut i: usize = 0;
    while i < a.len()
        invariant
            i <= a@.len(),
            a@.len() == b@.len(),
            a@.subrange(0, i as int) == b@.subrange(0, i as int),
        decreases a@.len() - i,
    {
        if a[i] != b[i] {
            assert(a@[i as int] != b@[i as int]);
            return false;
        }
        i = i + 1;
        assert(a@.subrange(0, i as int) =~= b@.subrange(0, i as int));
    }
    assert(a@ =~= a@.subrange(0, a@.len() as int));
    assert(b@ =~= b@.subrange(0, b@.len() as int));
    true
}

} // verus!
