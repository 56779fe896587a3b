use bitcoin::hashes::Hash as _;
use op_rand::commitment::{Commitments, FirstRankCommitment, ThirdRankCommitment};
use op_rand::crypto::SecretKey;
use op_rand::prover::{bytes_to_string_array, BarretenbergProver, CircuitMetadata, OpRandProof, ProverError};
use op_rand::protocol::{
    acceptor_proof_inputs, check_commitments_count, plan_funding, select_commitment, select_utxos,
    sum_values, tweaked_key_hash, validate_completion, ProtocolError, SelectionError, Utxo, UtxoStatus,
};
use op_rand::crypto::CryptoError;
use op_rand::errors::TransactionError;
use op_rand::script::{
    challenge_script, combine_public_keys, create_close_output_script, create_init_output_script, create_p2wpkh_script,
    p2wsh_script, push_int,
};

fn scalar(v: u8) -> [u8; 32] {
    let mut b = [0u8; 32];
    b[31] = v;
    b
}

fn sk(v: u8) -> SecretKey {
    SecretKey::from_bytes(scalar(v)).unwrap()
}

fn btc_key(v: u8) -> bitcoin::PublicKey {
    let s = secp256k1::SecretKey::from_slice(&scalar(v)).unwrap();
    bitcoin::PublicKey::new(s.public_key(secp256k1::SECP256K1))
}

fn utxo(value: u64) -> Utxo {
    Utxo {
        txid: "00".repeat(32),
        vout: 0,
        status: UtxoStatus { confirmed: true, block_height: Some(1), block_hash: None, block_time: None },
        value,
    }
}

#[test]
fn push_int_encodings() {
    assert_eq!(push_int(0), vec![0x00]);
    assert_eq!(push_int(1), vec![0x51]);
    assert_eq!(push_int(16), vec![0x60]);
    assert_eq!(push_int(17), vec![0x01, 0x11]);
    assert_eq!(push_int(127), vec![0x01, 0x7f]);
    assert_eq!(push_int(128), vec![0x02, 0x80, 0x00]);
    assert_eq!(push_int(500_000), vec![0x03, 0x20, 0xa1, 0x07]);
    assert_eq!(push_int(u32::MAX), vec![0x05, 0xff, 0xff, 0xff, 0xff, 0x00]);
    for v in [0u32, 5, 16, 17, 255, 256, 32_767, 32_768, 800_123, 499_999_999, u32::MAX] {
        let expected = bitcoin::script::Builder::new().push_int(v as i64).into_bytes();
        assert_eq!(push_int(v), expected);
    }
}

#[test]
fn challenge_script_matches_builder() {
    let challenger = sk(21).public_key();
    let acceptor = sk(42).public_key();
    let script = challenge_script(&challenger, &acceptor, 800_123);
    let expected = bitcoin::script::Builder::new()
        .push_opcode(bitcoin::opcodes::all::OP_IF)
        .push_key(&btc_key(42))
        .push_opcode(bitcoin::opcodes::all::OP_CHECKSIG)
        .push_opcode(bitcoin::opcodes::all::OP_ELSE)
        .push_lock_time(bitcoin::absolute::LockTime::from_consensus(800_123))
        .push_opcode(bitcoin::opcodes::all::OP_CLTV)
        .push_opcode(bitcoin::opcodes::all::OP_DROP)
        .push_key(&btc_key(21))
        .push_opcode(bitcoin::opcodes::all::OP_CHECKSIG)
        .push_opcode(bitcoin::opcodes::all::OP_ENDIF)
        .into_bytes();
    assert_eq!(script, expected);
    assert_eq!(script[0], 0x63);
    assert_eq!(&script[2..35], &acceptor.serialize()[..]);
    let wsh = bitcoin::ScriptBuf::new_p2wsh(&bitcoin::ScriptBuf::from_bytes(script.clone()).wscript_hash());
    assert_eq!(p2wsh_script(&script), wsh.into_bytes());
}

#[test]
fn p2wpkh_script_matches_builder() {
    let key = sk(7).public_key();
    let expected = bitcoin::ScriptBuf::new_p2wpkh(&btc_key(7).wpubkey_hash().unwrap());
    assert_eq!(create_p2wpkh_script(&key), expected.into_bytes());
    assert_eq!(create_p2wpkh_script(&key).len(), 22);
}

#[test]
fn select_utxos_takes_shortest_prefix() {
    let picked = select_utxos(vec![utxo(60_000), utxo(60_000), utxo(5)], 100_300).unwrap();
    assert_eq!(picked.len(), 2);
    let picked = select_utxos(vec![utxo(60_000), utxo(60_000)], 60_000).unwrap();
    assert_eq!(picked.len(), 1);
    assert!(select_utxos(vec![utxo(1)], 0).unwrap().is_empty());
    assert!(select_utxos(vec![], 0).unwrap().is_empty());
}

#[test]
fn select_utxos_insufficient() {
    let r = select_utxos(vec![utxo(60_000), utxo(40_299)], 100_300);
    assert_eq!(r.unwrap_err(), SelectionError::InsufficientFunds);
    assert_eq!(select_utxos(vec![], 1).unwrap_err(), SelectionError::InsufficientFunds);
}

#[test]
fn funding_plan_change() {
    let (picked, change) = plan_funding(vec![utxo(60_000), utxo(60_000)], 100_000).unwrap();
    assert_eq!(picked.len(), 2);
    assert_eq!(change, Some(19_700));
    let (_, change) = plan_funding(vec![utxo(100_799)], 100_000).unwrap();
    assert_eq!(change, None);
    let (_, change) = plan_funding(vec![utxo(100_800)], 100_000).unwrap();
    assert_eq!(change, Some(500));
    assert_eq!(plan_funding(vec![utxo(5)], u64::MAX).unwrap_err(), SelectionError::AmountOverflow);
    assert_eq!(plan_funding(vec![utxo(100_299)], 100_000).unwrap_err(), SelectionError::InsufficientFunds);
    assert_eq!(
        plan_funding(vec![utxo(u64::MAX - 1), utxo(u64::MAX)], u64::MAX - 300).unwrap_err(),
        SelectionError::AmountOverflow
    );
}

#[test]
fn sum_of_values() {
    assert_eq!(sum_values(&vec![utxo(1), utxo(2), utxo(3)]), Some(6));
    assert_eq!(sum_values(&vec![utxo(u64::MAX), utxo(1)]), None);
}

#[test]
fn completion_validation() {
    let c = Commitments::from_first_rank([
        FirstRankCommitment::from_secret_key(sk(1)),
        FirstRankCommitment::from_secret_key(sk(2)),
    ])
    .unwrap();
    let ours = *c.third_rank_commitments();
    let id = "a1".to_string();
    assert_eq!(validate_completion(&id, &id.clone(), &ours, &ours), Ok(()));
    assert_eq!(validate_completion(&id, &"a2".to_string(), &ours, &ours), Err(ProtocolError::IdMismatch));
    let swapped = [ours[1], ours[0]];
    assert_eq!(validate_completion(&id, &id, &ours, &swapped), Err(ProtocolError::CommitmentMismatch));
    let other = [ours[0], ThirdRankCommitment::from_public_key(sk(9).public_key())];
    assert_eq!(validate_completion(&id, &id, &ours, &other), Err(ProtocolError::CommitmentMismatch));
}

#[test]
fn commitment_count_and_index() {
    assert_eq!(check_commitments_count(2), Ok(()));
    assert_eq!(check_commitments_count(3), Err(ProtocolError::UnsupportedCommitmentsCount));
    let thirds = [
        ThirdRankCommitment::from_public_key(sk(1).public_key()),
        ThirdRankCommitment::from_public_key(sk(2).public_key()),
    ];
    assert_eq!(select_commitment(&thirds, 1).unwrap().inner().serialize(), sk(2).public_key().serialize());
    assert_eq!(select_commitment(&thirds, 2).unwrap_err(), ProtocolError::CommitmentIndexOutOfRange);
}

#[test]
fn tweaked_hash_is_hash160_of_sum() {
    let h = tweaked_key_hash(&sk(3).public_key(), &sk(4).public_key()).unwrap();
    let sum = btc_key(7);
    assert_eq!(h, sum.pubkey_hash().to_byte_array());
}

#[test]
fn acceptor_signature_verifies() {
    let third = ThirdRankCommitment::from_public_key(sk(4).public_key());
    let (hash, sig) = acceptor_proof_inputs(&sk(3), &third).unwrap();
    assert_eq!(hash, btc_key(7).pubkey_hash().to_byte_array());
    let digest = bitcoin::hashes::sha256::Hash::hash(&hash).to_byte_array();
    let sig = secp256k1::ecdsa::Signature::from_compact(&sig).unwrap();
    let pk = secp256k1::SecretKey::from_slice(&scalar(3)).unwrap().public_key(secp256k1::SECP256K1);
    let msg = secp256k1::Message::from_digest(digest);
    assert!(secp256k1::SECP256K1.verify_ecdsa(&msg, &sig, &pk).is_ok());
}

#[test]
fn public_signals_are_whole_chunks() {
    let data: Vec<u8> = (0..70u8).collect();
    let proof = OpRandProof::new(data.clone(), vec![9, 9]);
    assert_eq!(proof.proof_bytes(), &data[..]);
    assert_eq!(proof.vk(), &[9u8, 9][..]);
    let signals = proof.extract_public_signals(3);
    assert_eq!(signals.len(), 2);
    assert_eq!(signals[0], &data[0..32]);
    assert_eq!(signals[1], &data[32..64]);
    assert_eq!(proof.extract_public_signals(1).len(), 1);
    assert!(proof.extract_public_signals(0).is_empty());
}

#[test]
fn bytes_as_decimal_strings() {
    assert_eq!(bytes_to_string_array(&[0, 9, 10, 99, 100, 255]), vec!["0", "9", "10", "99", "100", "255"]);
    assert!(bytes_to_string_array(&[]).is_empty());
}

#[test]
fn circuit_witness_layout() {
    let prover = BarretenbergProver::new(false);
    assert!(!prover.is_recursive);
    let c = Commitments::from_first_rank([
        FirstRankCommitment::from_secret_key(sk(1)),
        FirstRankCommitment::from_secret_key(sk(2)),
    ])
    .unwrap();
    let pk = sk(5).public_key();
    let w = prover.challenger_witness(c.first_rank_commitments(), c.third_rank_commitments(), &pk, &[7u8; 20]);
    assert_eq!(w.len(), 32 + 32 + 64 * 3 + 20);
    assert_eq!(w[31], "1");
    assert_eq!(w[63], "2");
    let full = btc_key(5).inner.serialize_uncompressed();
    let pk_start = 64 + 128;
    let expected: Vec<String> = full[1..65].iter().map(|b| b.to_string()).collect();
    assert_eq!(&w[pk_start..pk_start + 64], &expected[..]);
    assert_eq!(w[w.len() - 1], "7");
    let a = prover.acceptor_witness(&pk, &[3u8; 64], &[4u8; 20], c.third_rank_commitments());
    assert_eq!(a.len(), 64 + 64 + 128 + 20);
    assert_eq!(&a[0..64], &expected[..]);
    assert_eq!(a[64], "3");
}

#[test]
fn circuit_metadata_from_json() {
    let m = CircuitMetadata::from_json("{\"bytecode\": \"H4sI\", \"abi\": {}}").unwrap();
    assert_eq!(m.bytecode, "H4sI");
    assert!(CircuitMetadata::from_json("{\"bytecode\": 3}").is_none());
    assert!(CircuitMetadata::from_json("not json").is_none());
}

#[test]
fn prover_error_variants() {
    let e = ProverError::InvalidNumberOfPublicSignals { expected: 2, got: 1 };
    assert_ne!(e, ProverError::InvalidProof);
}

#[test]
fn output_scripts_of_deposit_and_challenge() {
    let init = create_init_output_script(&sk(21).public_key(), &sk(101).public_key()).unwrap();
    let expected = bitcoin::ScriptBuf::new_p2wpkh(&btc_key(122).wpubkey_hash().unwrap());
    assert_eq!(init, expected.into_bytes());
    let close = create_close_output_script(&sk(21).public_key(), &sk(42).public_key(), &sk(8).public_key(), 700_000).unwrap();
    let witness_script = challenge_script(&sk(21).public_key(), &sk(50).public_key(), 700_000);
    assert_eq!(close, p2wsh_script(&witness_script));
    let p = sk(3).public_key();
    assert_eq!(
        combine_public_keys(&p, &p.negate()).unwrap_err(),
        TransactionError::Secp256k1(CryptoError::InvalidPublicKeySum)
    );
    assert_eq!(
        create_init_output_script(&p, &p.negate()).unwrap_err(),
        TransactionError::Secp256k1(CryptoError::InvalidPublicKeySum)
    );
}
