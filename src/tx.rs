//! Bitcoin transactions as plain values: outpoints, inputs with their witness
//! stacks, outputs, and the transaction itself.
//!
//! The transaction identifier and the segwit signature hashes are computed by
//! the `bitcoin` crate. Neither reads a witness, so both are named over the
//! transaction with its witnesses left out.

use bitcoin::hashes::Hash as _;
use bitcoin::absolute::LockTime;
use bitcoin::transaction::Version;
use bitcoin::{Amount, ScriptBuf, Sequence, Txid, Witness};
use bitcoin::{OutPoint as BitcoinOutPoint, Transaction as BitcoinTransaction};
use bitcoin::{TxIn as BitcoinTxIn, TxOut as BitcoinTxOut};
use vstd::prelude::*;

verus! {

/// `nSequence` of an input that signals neither relative lock time nor
/// replaceability, and leaves the absolute lock time unchecked.
pub const SEQUENCE_FINAL: u32 = 0xFFFF_FFFF;

/// `nSequence` that enables the absolute lock time without signalling
/// replaceability.
pub const SEQUENCE_ENABLE_LOCKTIME_NO_RBF: u32 = 0xFFFF_FFFE;

/// Sighash flag ALL, as appended to a signature.
pub const SIGHASH_ALL: u8 = 1;

/// A reference to an output of an earlier transaction.
#[derive(Clone, Copy, Debug, PartialEq, Eq)]
pub struct OutPoint {
    /// Identifier of the transaction, in its internal byte order.
    pub txid: [u8; 32],
    /// Index of the output in that transaction.
    pub vout: u32,
}

/// An output: an amount in satoshis and the script that locks it.
#[derive(Clone, Debug)]
pub struct TxOut {
    pub value: u64,
    pub script_pubkey: Vec<u8>,
}

/// An input: the output it spends, its sequence number and its witness stack.
#[derive(Clone, Debug)]
pub struct TxIn {
    pub previous_output: OutPoint,
    pub sequence: u32,
    pub witness: Vec<Vec<u8>>,
}

/// A transaction. Inputs carry no signature script: every spend here is a
/// witness spend.
#[derive(Clone, Debug)]
pub struct Transaction {
    pub version: i32,
    pub lock_time: u32,
    pub input: Vec<TxIn>,
    pub output: Vec<TxOut>,
}

/// What a signature hash and the transaction identifier commit to of an input.
pub struct InputModel {
    pub previous_output: OutPoint,
    pub sequence: u32,
}

/// What a signature hash and the transaction identifier commit to of an output.
pub struct OutputModel {
    pub value: u64,
    pub script_pubkey: Seq<u8>,
}

/// A transaction without its witnesses.
pub struct UnsignedModel {
    pub version: i32,
    pub lock_time: u32,
    pub input: Seq<InputModel>,
    pub output: Seq<OutputModel>,
}

/// Identifier of a transaction: double SHA-256 of its encoding without
/// witnesses, in internal byte order.
pub uninterp spec fn txid_of(tx: UnsignedModel) -> Seq<u8>;

/// BIP 143 signature hash, flag ALL, of input `index` spending `value`
/// satoshis locked by the P2WPKH script `script_pubkey`.
pub uninterp spec fn p2wpkh_sighash_of(
    tx: UnsignedModel,
    index: int,
    script_pubkey: Seq<u8>,
    value: u64,
) -> Seq<u8>;

/// BIP 143 signature hash, flag ALL, of input `index` spending `value`
/// satoshis locked by the P2WSH witness script `witness_script`.
pub uninterp spec fn p2wsh_sighash_of(
    tx: UnsignedModel,
    index: int,
    witness_script: Seq<u8>,
    value: u64,
) -> Seq<u8>;

/// Whether a script is a version-0 witness program over a 20-byte hash.
pub open spec fn is_p2wpkh_script(s: Seq<u8>) -> bool {
    s.len() == 22 && s[0] == 0x00 && s[1] == 0x14
}

impl TxOut {
    pub open spec fn model(&self) -> OutputModel {
        OutputModel { value: self.value, script_pubkey: self.script_pubkey@ }
    }
}

impl TxIn {
    pub open spec fn model(&self) -> InputModel {
        InputModel { previous_output: self.previous_output, sequence: self.sequence }
    }

    /// The witness stack as byte strings.
    pub open spec fn witness_view(&self) -> Seq<Seq<u8>> {
        self.witness@.map_values(|w: Vec<u8>| w@)
    }

    /// An input that spends `previous_output`, with the given sequence number
    /// and an empty witness.
    pub fn new(previous_output: OutPoint, sequence: u32) -> (r: TxIn)
        ensures
            r.previous_output == previous_output,
            r.sequence == sequence,
            r.witness@.len() == 0,
    {
        TxIn { previous_output, sequence, witness: Vec::new() }
    }
}

impl Transaction {
    pub open spec fn unsigned(&self) -> UnsignedModel {
        UnsignedModel {
            version: self.version,
            lock_time: self.lock_time,
            input: self.input@.map_values(|i: TxIn| i.model()),
            output: self.output@.map_values(|o: TxOut| o.model()),
        }
    }

    /// A version-1 transaction with the given inputs, outputs and lock time
    /// (zero where none is given).
    pub fn create(input: Vec<TxIn>, output: Vec<TxOut>, lock_time: Option<u32>) -> (r: Transaction)
        ensures
            r.version == 1,
            r.lock_time == (match lock_time {
                Some(l) => l,
                None => 0,
            }),
            r.input@ == input@,
            r.output@ == output@,
    {
        let lock_time = match lock_time {
            Some(l) => l,
            None => 0,
        };
        Transaction { version: 1, lock_time, input, output }
    }

    /// The transaction identifier.
    pub fn compute_txid(&self) -> (r: [u8; 32])
        ensures
            r@ == txid_of(self.unsigned()),
    {
        bitcoin_txid(self)
    }
}

/// Sets the witness stack of input `index`, leaving everything else as it was.
pub fn set_witness(tx: &mut Transaction, index: usize, witness: Vec<Vec<u8>>)
    requires
        index < old(tx).input.len(),
    ensures
        final(tx).version == old(tx).version,
        final(tx).lock_time == old(tx).lock_time,
        final(tx).output@ == old(tx).output@,
        final(tx).input.len() == old(tx).input.len(),
        forall|j: int|
            0 <= j < final(tx).input.len() && j != index ==> #[trigger] final(tx).input@[j]
                == old(tx).input@[j],
        final(tx).input@[index as int].previous_output == old(tx).input@[index as int].previous_output,
        final(tx).input@[index as int].sequence == old(tx).input@[index as int].sequence,
        final(tx).input@[index as int].witness@ == witness@,
        final(tx).unsigned() == old(tx).unsigned(),
{
    let new_input = TxIn {
        previous_output: tx.input[index].previous_output,
        sequence: tx.input[index].sequence,
        witness,
    };
    tx.input.set(index, new_input);
    proof {
        assert(tx.unsigned().input =~= old(tx).unsigned().input);
        assert(tx.unsigned().output =~= old(tx).unsigned().output);
    }
}

#[verifier::external_type_specification]
#[verifier::external_body]
pub struct ExBitcoinTransaction(BitcoinTransaction);

/// Builds the `bitcoin` crate's transaction of the same fields, for the
/// computations that crate performs on it.
#[verifier::external_body]
fn to_bitcoin(tx: &Transaction) -> BitcoinTransaction {
    let input = tx.input.iter().map(|i| BitcoinTxIn {
        previous_output: BitcoinOutPoint::new(Txid::from_byte_array(i.previous_output.txid), i.previous_output.vout),
        script_sig: ScriptBuf::new(),
        sequence: Sequence(i.sequence),
        witness: Witness::from_slice(&i.witness),
    });
    let output = tx.output.iter().map(|o| BitcoinTxOut {
        value: Amount::from_sat(o.value),
        script_pubkey: ScriptBuf::from_bytes(o.script_pubkey.clone()),
    });
    let version = Version(tx.version);
    let lock_time = LockTime::from_consensus(tx.lock_time);
    BitcoinTransaction { version, lock_time, input: input.collect(), output: output.collect() }
}

/// Relies on `bitcoin::Transaction::compute_txid`.
#[verifier::external_body]
fn bitcoin_txid(tx: &Transaction) -> (r: [u8; 32])
    ensures
        r@ == txid_of(tx.unsigned()),
{
    to_bitcoin(tx).compute_txid().to_byte_array()
}

/// Relies on `bitcoin::sighash::SighashCache::p2wpkh_signature_hash`, which
/// fails only on a script that is no P2WPKH program or an index out of range.
#[verifier::external_body]
pub(crate) fn p2wpkh_sighash(tx: &Transaction, index: usize, script_pubkey: &Vec<u8>, value: u64) -> (r: [u8; 32])
    requires
        index < tx.input.len(),
        is_p2wpkh_script(script_pubkey@),
    ensures
        r@ == p2wpkh_sighash_of(tx.unsigned(), index as int, script_pubkey@, value),
{
    let btc = to_bitcoin(tx);
    let script = ScriptBuf::from_bytes(script_pubkey.clone());
    let mut cache = bitcoin::sighash::SighashCache::new(&btc);
    let amount = Amount::from_sat(value);
    let h = cache.p2wpkh_signature_hash(index, &script, amount, bitcoin::EcdsaSighashType::All);
    h.unwrap().to_byte_array()
}

/// Relies on `bitcoin::sighash::SighashCache::p2wsh_signature_hash`, which
/// fails only on an index out of range.
#[verifier::external_body]
pub(crate) fn p2wsh_sighash(tx: &Transaction, index: usize, witness_script: &Vec<u8>, value: u64) -> (r: [u8; 32])
    requires
        index < tx.input.len(),
    ensures
        r@ == p2wsh_sighash_of(tx.unsigned(), index as int, witness_script@, value),
{
    let btc = to_bitcoin(tx);
    let script = ScriptBuf::from_bytes(witness_script.clone());
    let mut cache = bitcoin::sighash::SighashCache::new(&btc);
    let amount = Amount::from_sat(value);
    let h = cache.p2wsh_signature_hash(index, &script, amount, bitcoin::EcdsaSighashType::All);
    h.unwrap().to_byte_array()
}

} // verus!
