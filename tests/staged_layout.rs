use op_rand::crypto::SecretKey;
use op_rand::errors::TransactionError;
use op_rand::script::{challenge_script, create_init_output_script, create_p2wpkh_script, p2wsh_script};
use op_rand::crypto::CryptoError;
use op_rand::psbt::Psbt;
use op_rand::staged::{
    combine_secret_keys, copy_txin, create_unsigned_closing_tx, create_unsigned_deposit_tx, create_unsigned_initial_tx,
    TransactionBuilder, TransactionSigner,
};
use op_rand::tx::{OutPoint, TxIn, TxOut};

fn sk(v: u8) -> SecretKey {
    let mut b = [0u8; 32];
    b[31] = v;
    SecretKey::from_bytes(b).unwrap()
}

fn outpoint(tag: u8, vout: u32) -> OutPoint {
    OutPoint { txid: [tag; 32], vout }
}

#[test]
fn unsigned_transactions_enable_lock_time() {
    let d = create_unsigned_deposit_tx(vec![outpoint(1, 0), outpoint(2, 3)], 5_000, vec![0x51]);
    assert_eq!(d.version, 1);
    assert_eq!(d.lock_time, 0);
    assert_eq!(d.input.len(), 2);
    assert!(d.input.iter().all(|i| i.sequence == 0xFFFF_FFFE && i.witness.is_empty()));
    assert_eq!(d.input[1].previous_output, outpoint(2, 3));
    assert_eq!(d.output[0].value, 5_000);
    assert_eq!(d.output[0].script_pubkey, vec![0x51]);
    let i = create_unsigned_initial_tx(outpoint(3, 1), 4_000, vec![0x52]);
    assert_eq!(i.input.len(), 1);
    assert_eq!(i.input[0].sequence, 0xFFFF_FFFE);
    let c = create_unsigned_closing_tx(outpoint(4, 0), outpoint(5, 0), 650_000, 8_000, vec![0x53]);
    assert_eq!(c.lock_time, 650_000);
    assert_eq!(c.input[0].previous_output, outpoint(4, 0));
    assert_eq!(c.input[1].previous_output, outpoint(5, 0));
    assert_eq!(c.output[0].value, 8_000);
}

#[test]
fn staged_builder_needs_deposit() {
    let b = TransactionBuilder::from_pubkey(sk(21).public_key());
    assert_eq!(b.build_initial_tx(&sk(5).public_key(), 1_000).unwrap_err(), TransactionError::NoDepositTxStored);
    let input = TxIn::new(outpoint(7, 0), 0xFFFF_FFFF);
    let r = b.build_closing_tx(input, &sk(1).public_key(), &sk(5).public_key(), 1_000, 10);
    assert_eq!(r.unwrap_err(), TransactionError::NoDepositTxStored);
}

#[test]
fn staged_builder_flow() {
    let mut b = TransactionBuilder::from_pubkey(sk(21).public_key());
    let deposit = b.build_and_set_deposit_tx(vec![TxIn::new(outpoint(1, 0), 0xFFFF_FFFF)], 50_000).unwrap();
    assert_eq!(deposit.output[0].script_pubkey, create_p2wpkh_script(&sk(21).public_key()));
    let initial = b.build_initial_tx(&sk(5).public_key(), 50_000).unwrap();
    assert_eq!(initial.input[0].previous_output, OutPoint { txid: deposit.compute_txid(), vout: 0 });
    assert_eq!(
        initial.output[0].script_pubkey,
        create_init_output_script(&sk(21).public_key(), &sk(5).public_key()).unwrap()
    );
    let from_initial = TxIn::new(OutPoint { txid: initial.compute_txid(), vout: 0 }, 0xFFFF_FFFF);
    let psbt = b.build_closing_tx(copy_txin(&from_initial), &sk(1).public_key(), &sk(5).public_key(), 99_000, 700).unwrap();
    assert_eq!(psbt.inputs.len(), 2);
    assert_eq!(psbt.unsigned_tx.input[0].previous_output, from_initial.previous_output);
    assert_eq!(psbt.unsigned_tx.input[1].previous_output, OutPoint { txid: deposit.compute_txid(), vout: 0 });
    let script = challenge_script(&sk(1).public_key(), &sk(26).public_key(), 700);
    assert_eq!(psbt.unsigned_tx.output[0].script_pubkey, p2wsh_script(&script));
    assert_eq!(psbt.unsigned_tx.output[0].value, 99_000);
}

#[test]
fn staged_closing_rejects_signed_input() {
    let mut b = TransactionBuilder::from_pubkey(sk(21).public_key());
    let mut stored = TxIn::new(outpoint(9, 1), 0xFFFF_FFFF);
    b.set_deposit_txin(copy_txin(&stored));
    let mut signed = TxIn::new(outpoint(8, 0), 0xFFFF_FFFF);
    signed.witness.push(vec![1]);
    let r = b.build_closing_tx(signed, &sk(1).public_key(), &sk(5).public_key(), 1_000, 10);
    assert_eq!(r.unwrap_err(), TransactionError::UnsignedTxHasWitness);
    stored.witness.push(vec![2]);
    let copy = copy_txin(&stored);
    assert_eq!(copy.witness, vec![vec![2u8]]);
}

#[test]
fn signer_signs_every_input() {
    let signer = TransactionSigner::new(sk(33));
    let own = create_p2wpkh_script(&sk(33).public_key());
    let txout = TxOut { value: 7_000, script_pubkey: own.clone() };
    let mut tx = create_unsigned_deposit_tx(vec![outpoint(1, 0), outpoint(2, 0)], 13_000, vec![0x51]);
    let mismatch = signer.sign_multi_input(&mut tx, vec![txout.clone()]);
    assert_eq!(mismatch.unwrap_err(), TransactionError::InputsOutputsLengthMismatch);
    assert!(tx.input.iter().all(|i| i.witness.is_empty()));
    signer.sign_multi_input(&mut tx, vec![txout.clone(), txout.clone()]).unwrap();
    for i in &tx.input {
        assert_eq!(i.witness.len(), 2);
        assert_eq!(i.witness[1], sk(33).public_key().to_vec());
        assert_eq!(*i.witness[0].last().unwrap(), 1u8);
    }
    assert_ne!(tx.input[0].witness[0], tx.input[1].witness[0]);
}

#[test]
fn signer_adds_partial_signature() {
    let signer = TransactionSigner::new(sk(33));
    let tx = create_unsigned_initial_tx(outpoint(3, 1), 4_000, vec![0x52]);
    let mut psbt = Psbt::from_unsigned_tx(tx).unwrap();
    let txout = TxOut { value: 4_500, script_pubkey: create_p2wpkh_script(&sk(33).public_key()) };
    assert_eq!(signer.sign_psbt_input(&mut psbt, 1, &txout).unwrap_err(), TransactionError::InputIndexOutOfBounds);
    signer.sign_psbt_input(&mut psbt, 0, &txout).unwrap();
    signer.sign_psbt_input(&mut psbt, 0, &txout).unwrap();
    assert_eq!(psbt.inputs[0].partial_sigs.len(), 1);
    assert_eq!(psbt.inputs[0].witness_utxo.as_ref().unwrap().value, 4_500);
    let signed = psbt.extract_tx().unwrap();
    assert_eq!(signed.input[0].witness[1], sk(33).public_key().to_vec());
}

#[test]
fn secret_keys_combine_to_sum() {
    let sum = combine_secret_keys(&sk(40), &sk(2)).unwrap();
    assert_eq!(sum.secret_bytes(), sk(42).secret_bytes());
    let mut minus = [
        0xFF, 0xFF, 0xFF, 0xFF, 0xFF, 0xFF, 0xFF, 0xFF, 0xFF, 0xFF, 0xFF, 0xFF, 0xFF, 0xFF, 0xFF, 0xFE,
        0xBA, 0xAE, 0xDC, 0xE6, 0xAF, 0x48, 0xA0, 0x3B, 0xBF, 0xD2, 0x5E, 0x8C, 0xD0, 0x36, 0x41, 0x41,
    ];
    minus[31] -= 2;
    let neg = SecretKey::from_bytes(minus).unwrap();
    assert_eq!(combine_secret_keys(&neg, &sk(2)).unwrap_err(), CryptoError::InvalidTweak);
}
