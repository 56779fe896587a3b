use bitcoin::hashes::Hash as _;
use op_rand::builder::TransactionBuilder;
use op_rand::commitment::{Commitments, FirstRankCommitment};
use op_rand::crypto::{CryptoError, PublicKey, SecretKey};
use op_rand::errors::TransactionError;
use op_rand::protocol::change_amount;
use op_rand::psbt::Psbt;
use op_rand::script::{challenge_script, create_p2wpkh_script, p2wsh_script};
use op_rand::tx::{OutPoint, Transaction, TxIn, TxOut, SEQUENCE_ENABLE_LOCKTIME_NO_RBF};

fn scalar(v: u8) -> [u8; 32] {
    let mut b = [0u8; 32];
    b[31] = v;
    b
}

fn sk(v: u8) -> SecretKey {
    SecretKey::from_bytes(scalar(v)).unwrap()
}

fn outpoint(tag: u8, vout: u32) -> OutPoint {
    OutPoint { txid: [tag; 32], vout }
}

fn to_btc(tx: &Transaction) -> bitcoin::Transaction {
    bitcoin::Transaction {
        version: bitcoin::transaction::Version(tx.version),
        lock_time: bitcoin::absolute::LockTime::from_consensus(tx.lock_time),
        input: tx
            .input
            .iter()
            .map(|i| bitcoin::TxIn {
                previous_output: bitcoin::OutPoint::new(
                    bitcoin::Txid::from_byte_array(i.previous_output.txid),
                    i.previous_output.vout,
                ),
                script_sig: bitcoin::ScriptBuf::new(),
                sequence: bitcoin::Sequence(i.sequence),
                witness: bitcoin::Witness::from_slice(&i.witness),
            })
            .collect(),
        output: tx
            .output
            .iter()
            .map(|o| bitcoin::TxOut {
                value: bitcoin::Amount::from_sat(o.value),
                script_pubkey: bitcoin::ScriptBuf::from_bytes(o.script_pubkey.clone()),
            })
            .collect(),
    }
}

fn verify_der(digest: [u8; 32], sig_with_flag: &[u8], key: &[u8]) -> bool {
    assert_eq!(*sig_with_flag.last().unwrap(), 1u8);
    let sig = secp256k1::ecdsa::Signature::from_der(&sig_with_flag[..sig_with_flag.len() - 1]).unwrap();
    let pk = secp256k1::PublicKey::from_slice(key).unwrap();
    let msg = secp256k1::Message::from_digest(digest);
    secp256k1::SECP256K1.verify_ecdsa(&msg, &sig, &pk).is_ok()
}

/// Checks the P2WPKH witness of input `index` against the output it spends.
fn p2wpkh_input_valid(tx: &Transaction, index: usize, spent_script: &[u8], value: u64) -> bool {
    let w = &tx.input[index].witness;
    assert_eq!(w.len(), 2);
    let key = bitcoin::PublicKey::from_slice(&w[1]).unwrap();
    let pays_to = bitcoin::ScriptBuf::new_p2wpkh(&key.wpubkey_hash().unwrap());
    if pays_to.as_bytes() != spent_script {
        return false;
    }
    let btc = to_btc(tx);
    let mut cache = bitcoin::sighash::SighashCache::new(&btc);
    let h = cache
        .p2wpkh_signature_hash(index, &pays_to, bitcoin::Amount::from_sat(value), bitcoin::EcdsaSighashType::All)
        .unwrap();
    verify_der(h.to_byte_array(), &w[0], &w[1])
}

fn p2wsh_signature_valid(tx: &Transaction, script: &[u8], value: u64, key: &PublicKey) -> bool {
    let btc = to_btc(tx);
    let mut cache = bitcoin::sighash::SighashCache::new(&btc);
    let ws = bitcoin::ScriptBuf::from_bytes(script.to_vec());
    let h = cache
        .p2wsh_signature_hash(0, &ws, bitcoin::Amount::from_sat(value), bitcoin::EcdsaSighashType::All)
        .unwrap();
    verify_der(h.to_byte_array(), &tx.input[0].witness[0], &key.serialize())
}

struct Run {
    challenger: TransactionBuilder,
    acceptor: TransactionBuilder,
    commitments: Commitments,
    deposit: Transaction,
    script: Vec<u8>,
    psbt: Psbt,
}

const LOCK_TIME: u32 = 800_123;

fn run(selected: usize, accepted: usize) -> Run {
    let challenger = TransactionBuilder::new(sk(21));
    let acceptor = TransactionBuilder::new(sk(42));
    let commitments = Commitments::from_first_rank([
        FirstRankCommitment::from_secret_key(sk(101)),
        FirstRankCommitment::from_secret_key(sk(102)),
    ])
    .unwrap();
    let first = *commitments.pick_first_rank_commitment(selected).unwrap();
    let prev = vec![(outpoint(1, 0), 60_000u64), (outpoint(2, 1), 60_000u64)];
    let change = change_amount(120_000, 100_000);
    let deposit = challenger.build_deposit_transaction(first, prev, 100_000, change, None).unwrap();
    let deposit_outpoint = OutPoint { txid: deposit.compute_txid(), vout: 0 };
    let third = *commitments.pick_third_rank_commitment(accepted).unwrap();
    let (script, psbt) = acceptor
        .build_challenge_tx(
            &challenger.public_key(),
            deposit_outpoint,
            third,
            LOCK_TIME,
            100_000,
            vec![(outpoint(3, 2), 100_300u64)],
            None,
            None,
        )
        .unwrap();
    Run { challenger, acceptor, commitments, deposit, script, psbt }
}

#[test]
fn deposit_transaction_outputs_and_signatures() {
    let r = run(0, 0);
    assert_eq!(change_amount(120_000, 100_000), Some(19_700));
    assert_eq!(r.deposit.version, 1);
    assert_eq!(r.deposit.lock_time, 0);
    assert_eq!(r.deposit.output.len(), 2);
    assert_eq!(r.deposit.output[0].value, 100_000);
    assert_eq!(r.deposit.output[1].value, 19_700);
    let first = r.commitments.pick_first_rank_commitment(0).unwrap();
    let locked = first.combine(&r.challenger.public_key()).unwrap();
    assert_eq!(r.deposit.output[0].script_pubkey, create_p2wpkh_script(&locked));
    assert_eq!(r.deposit.output[1].script_pubkey, create_p2wpkh_script(&r.challenger.public_key()));
    assert_eq!(r.deposit.input.len(), 2);
    assert_eq!(r.deposit.input[1].previous_output, outpoint(2, 1));
    let own = create_p2wpkh_script(&r.challenger.public_key());
    for i in 0..2 {
        assert!(p2wpkh_input_valid(&r.deposit, i, &own, 60_000));
    }
    assert!(!p2wpkh_input_valid(&r.deposit, 0, &own, 59_999));
}

#[test]
fn deposit_change_to_given_key() {
    let builder = TransactionBuilder::new(sk(21));
    let first = FirstRankCommitment::from_secret_key(sk(101));
    let other = sk(77).public_key();
    let tx = builder
        .build_deposit_transaction(first, vec![(outpoint(1, 0), 10_000)], 9_000, Some(700), Some(other))
        .unwrap();
    assert_eq!(tx.output[1].script_pubkey, create_p2wpkh_script(&other));
    let none = builder.build_deposit_transaction(first, vec![(outpoint(1, 0), 10_000)], 9_000, None, None).unwrap();
    assert_eq!(none.output.len(), 1);
}

#[test]
fn deposit_fails_on_opposite_keys() {
    let builder = TransactionBuilder::new(sk(21));
    let mut minus = [
        0xFF, 0xFF, 0xFF, 0xFF, 0xFF, 0xFF, 0xFF, 0xFF, 0xFF, 0xFF, 0xFF, 0xFF, 0xFF, 0xFF, 0xFF, 0xFE,
        0xBA, 0xAE, 0xDC, 0xE6, 0xAF, 0x48, 0xA0, 0x3B, 0xBF, 0xD2, 0x5E, 0x8C, 0xD0, 0x36, 0x41, 0x41,
    ];
    minus[31] -= 21;
    let first = FirstRankCommitment::from_secret_key(SecretKey::from_bytes(minus).unwrap());
    let r = builder.build_deposit_transaction(first, vec![(outpoint(1, 0), 10_000)], 9_000, None, None);
    assert_eq!(r.unwrap_err(), TransactionError::Secp256k1(CryptoError::InvalidPublicKeySum));
}

#[test]
fn challenge_transaction_layout() {
    let r = run(0, 0);
    let tx = &r.psbt.unsigned_tx;
    assert_eq!(tx.output.len(), 1);
    assert_eq!(tx.output[0].value, 200_000);
    assert_eq!(tx.output[0].script_pubkey, p2wsh_script(&r.script));
    assert_eq!(tx.input.len(), 2);
    assert_eq!(tx.input[0].previous_output, OutPoint { txid: r.deposit.compute_txid(), vout: 0 });
    assert_eq!(tx.input[1].previous_output, outpoint(3, 2));
    let third = r.commitments.pick_third_rank_commitment(0).unwrap();
    let tweaked = third.combine(&r.acceptor.public_key()).unwrap();
    assert_eq!(r.script, challenge_script(&r.challenger.public_key(), &tweaked, LOCK_TIME));
}

#[test]
fn challenge_partial_signatures_skip_deposit_input() {
    let r = run(0, 0);
    assert!(r.psbt.inputs[0].partial_sigs.is_empty());
    assert!(r.psbt.inputs[0].witness_utxo.is_none());
    let input = &r.psbt.inputs[1];
    assert_eq!(input.partial_sigs.len(), 1);
    assert_eq!(input.partial_sigs[0].public_key.serialize(), r.acceptor.public_key().serialize());
    assert_eq!(input.sighash_type, Some(1));
    let utxo = input.witness_utxo.as_ref().unwrap();
    assert_eq!(utxo.value, 100_300);
    let mut tx = r.psbt.unsigned_tx.clone();
    tx.input[1].witness = vec![input.partial_sigs[0].signature.clone(), r.acceptor.public_key().to_vec()];
    assert!(p2wpkh_input_valid(&tx, 1, &utxo.script_pubkey, 100_300));
}

#[test]
fn challenge_amount_overflow() {
    let builder = TransactionBuilder::new(sk(42));
    let c = Commitments::from_first_rank([
        FirstRankCommitment::from_secret_key(sk(101)),
        FirstRankCommitment::from_secret_key(sk(102)),
    ])
    .unwrap();
    let third = *c.pick_third_rank_commitment(0).unwrap();
    let r = builder.build_challenge_tx(&sk(21).public_key(), outpoint(9, 0), third, 10, u64::MAX / 2 + 1, vec![], None, None);
    assert_eq!(r.unwrap_err(), TransactionError::AmountOutOfRange);
}

#[test]
fn end_to_end_completion() {
    let r = run(0, 0);
    let first = *r.commitments.pick_first_rank_commitment(0).unwrap();
    let tx = r.challenger.complete_challenge_tx(r.psbt.clone(), 100_000, 0, first).unwrap();
    assert_eq!(tx.input.len(), 2);
    assert_eq!(tx.output.len(), 1);
    assert_eq!(tx.output[0].value, 200_000);
    assert!(p2wpkh_input_valid(&tx, 0, &r.deposit.output[0].script_pubkey, 100_000));
    let acceptor_script = create_p2wpkh_script(&r.acceptor.public_key());
    assert!(p2wpkh_input_valid(&tx, 1, &acceptor_script, 100_300));
    let again = r.challenger.complete_challenge_tx(r.psbt.clone(), 100_000, 0, first).unwrap();
    assert_eq!(tx.compute_txid(), again.compute_txid());
    assert_eq!(tx.input[0].witness, again.input[0].witness);
    assert_eq!(tx.compute_txid(), to_btc(&tx).compute_txid().to_byte_array());
}

#[test]
fn completion_with_wrong_commitment_does_not_spend_deposit() {
    let r = run(0, 0);
    let wrong = *r.commitments.pick_first_rank_commitment(1).unwrap();
    let tx = r.challenger.complete_challenge_tx(r.psbt.clone(), 100_000, 0, wrong).unwrap();
    assert!(!p2wpkh_input_valid(&tx, 0, &r.deposit.output[0].script_pubkey, 100_000));
}

#[test]
fn completion_errors() {
    let r = run(0, 0);
    let first = *r.commitments.pick_first_rank_commitment(0).unwrap();
    let out_of_range = r.challenger.complete_challenge_tx(r.psbt.clone(), 100_000, 2, first);
    assert_eq!(out_of_range.unwrap_err(), TransactionError::InputIndexOutOfBounds);
    let mut unsigned = r.psbt.clone();
    unsigned.inputs[1].partial_sigs.clear();
    let missing = r.challenger.complete_challenge_tx(unsigned, 100_000, 0, first);
    assert_eq!(missing.unwrap_err(), TransactionError::ExtractTransactionFailed(vec![1]));
}

#[test]
fn finalize_reports_unsatisfied_inputs() {
    let r = run(0, 0);
    assert_eq!(r.psbt.finalize().unwrap_err(), vec![0usize]);
    assert_eq!(r.psbt.clone().extract_tx().unwrap_err(), TransactionError::ExtractTransactionFailed(vec![0]));
}

#[test]
fn psbt_rejects_signed_transaction() {
    let mut input = TxIn::new(outpoint(1, 0), 0xFFFF_FFFF);
    input.witness.push(vec![1, 2, 3]);
    let tx = Transaction::create(vec![input], vec![TxOut { value: 1, script_pubkey: vec![] }], None);
    assert_eq!(Psbt::from_unsigned_tx(tx).unwrap_err(), TransactionError::UnsignedTxHasWitness);
}

#[test]
fn sign_psbt_input_out_of_range() {
    let r = run(0, 0);
    let mut psbt = r.psbt.clone();
    assert_eq!(r.acceptor.sign_psbt_input(&mut psbt, 5, 1_000, None).unwrap_err(), TransactionError::InputIndexOutOfBounds);
}

#[test]
fn acceptor_sweep_recovers_second_rank() {
    let r = run(0, 0);
    let first = *r.commitments.pick_first_rank_commitment(0).unwrap();
    let challenge = r.challenger.complete_challenge_tx(r.psbt.clone(), 100_000, 0, first).unwrap();
    let sweep = r
        .acceptor
        .sweep_challenge_output_acceptor(&challenge, &r.challenger.public_key(), &r.script, None, 300)
        .unwrap();
    assert_eq!(sweep.input.len(), 1);
    assert_eq!(sweep.input[0].previous_output, OutPoint { txid: challenge.compute_txid(), vout: 0 });
    assert_eq!(sweep.output[0].value, 199_700);
    assert_eq!(sweep.output[0].script_pubkey, create_p2wpkh_script(&r.acceptor.public_key()));
    assert_eq!(sweep.input[0].witness[1], vec![1u8]);
    assert_eq!(sweep.input[0].witness[2], r.script);
    let third = r.commitments.pick_third_rank_commitment(0).unwrap();
    let tweaked = third.combine(&r.acceptor.public_key()).unwrap();
    assert!(p2wsh_signature_valid(&sweep, &r.script, 200_000, &tweaked));
    assert!(!p2wsh_signature_valid(&sweep, &r.script, 200_000, &r.challenger.public_key()));
}

#[test]
fn acceptor_sweep_with_wrong_guess_does_not_verify() {
    let r = run(0, 1);
    let first = *r.commitments.pick_first_rank_commitment(0).unwrap();
    let challenge = r.challenger.complete_challenge_tx(r.psbt.clone(), 100_000, 0, first).unwrap();
    let sweep = r
        .acceptor
        .sweep_challenge_output_acceptor(&challenge, &r.challenger.public_key(), &r.script, None, 300)
        .unwrap();
    let third = r.commitments.pick_third_rank_commitment(1).unwrap();
    let tweaked = third.combine(&r.acceptor.public_key()).unwrap();
    assert!(!p2wsh_signature_valid(&sweep, &r.script, 200_000, &tweaked));
}

#[test]
fn acceptor_sweep_errors() {
    let r = run(0, 0);
    let empty = Transaction::create(vec![], vec![], None);
    let e = r.acceptor.sweep_challenge_output_acceptor(&empty, &r.challenger.public_key(), &r.script, None, 300);
    assert_eq!(e.unwrap_err(), TransactionError::MissingChallengeOutput);
    let unsigned = r.psbt.unsigned_tx.clone();
    let e = r.acceptor.sweep_challenge_output_acceptor(&unsigned, &r.challenger.public_key(), &r.script, None, 300);
    assert_eq!(e.unwrap_err(), TransactionError::Secp256k1(CryptoError::InvalidPublicKey));
    let e = r.acceptor.sweep_challenge_output_acceptor(&unsigned, &r.challenger.public_key(), &r.script, None, 200_001);
    assert_eq!(e.unwrap_err(), TransactionError::AmountOutOfRange);
}

#[test]
fn challenger_sweep_sets_lock_time() {
    let r = run(0, 0);
    let first = *r.commitments.pick_first_rank_commitment(0).unwrap();
    let challenge = r.challenger.complete_challenge_tx(r.psbt.clone(), 100_000, 0, first).unwrap();
    let recipient = sk(55).public_key();
    let sweep = r
        .challenger
        .sweep_challenge_output_challenger(&challenge, &r.script, LOCK_TIME, Some(recipient), 300)
        .unwrap();
    assert_eq!(sweep.lock_time, LOCK_TIME);
    assert_eq!(sweep.input[0].sequence, SEQUENCE_ENABLE_LOCKTIME_NO_RBF);
    assert_ne!(sweep.input[0].sequence, 0xFFFF_FFFF);
    assert_eq!(sweep.input[0].witness.len(), 3);
    assert!(sweep.input[0].witness[1].is_empty());
    assert_eq!(sweep.output[0].script_pubkey, create_p2wpkh_script(&recipient));
    assert_eq!(sweep.output[0].value, 199_700);
    assert!(p2wsh_signature_valid(&sweep, &r.script, 200_000, &r.challenger.public_key()));
    let e = r.challenger.sweep_challenge_output_challenger(&challenge, &r.script, LOCK_TIME, None, 200_001);
    assert_eq!(e.unwrap_err(), TransactionError::AmountOutOfRange);
}

#[test]
fn completion_rejects_invalid_acceptor_signature() {
    let r = run(0, 0);
    let first = *r.commitments.pick_first_rank_commitment(0).unwrap();
    let mut empty = r.psbt.clone();
    empty.inputs[1].partial_sigs[0].signature = vec![];
    let e = r.challenger.complete_challenge_tx(empty, 100_000, 0, first);
    assert_eq!(e.unwrap_err(), TransactionError::ExtractTransactionFailed(vec![1]));
    let mut flipped = r.psbt.clone();
    let sig = &mut flipped.inputs[1].partial_sigs[0].signature;
    let n = sig.len();
    sig[n - 2] ^= 0x01;
    let e = r.challenger.complete_challenge_tx(flipped, 100_000, 0, first);
    assert_eq!(e.unwrap_err(), TransactionError::ExtractTransactionFailed(vec![1]));
    let mut wrong_flag = r.psbt.clone();
    let sig = &mut wrong_flag.inputs[1].partial_sigs[0].signature;
    let n = sig.len();
    sig[n - 1] = 0x02;
    let e = r.challenger.complete_challenge_tx(wrong_flag, 100_000, 0, first);
    assert_eq!(e.unwrap_err(), TransactionError::ExtractTransactionFailed(vec![1]));
    let mut wrong_value = r.psbt.clone();
    wrong_value.inputs[1].witness_utxo.as_mut().unwrap().value = 100_301;
    let e = r.challenger.complete_challenge_tx(wrong_value, 100_000, 0, first);
    assert_eq!(e.unwrap_err(), TransactionError::ExtractTransactionFailed(vec![1]));
}

#[test]
fn completion_key_locks_deposit_output() {
    let r = run(1, 0);
    let first = *r.commitments.pick_first_rank_commitment(1).unwrap();
    let key = first.add_tweak(&sk(21)).unwrap();
    assert_eq!(
        create_p2wpkh_script(&key.public_key()),
        r.deposit.output[0].script_pubkey
    );
    let tx = r.challenger.complete_challenge_tx(r.psbt.clone(), 100_000, 0, first).unwrap();
    assert_eq!(tx.input[0].witness[1], key.public_key().to_vec());
    assert!(p2wpkh_input_valid(&tx, 0, &r.deposit.output[0].script_pubkey, 100_000));
}
