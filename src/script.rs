//! The two locking scripts of the protocol: pay-to-witness-public-key-hash
//! over a key, and the two-branch challenge script wrapped as
//! pay-to-witness-script-hash.

use crate::crypto::{key_sum, CryptoError, PublicKey, hash160, hash160_of, sha256, sha256_of};
use crate::errors::TransactionError;
use vstd::prelude::*;

verus! {

pub const OP_0: u8 = 0x00;
pub const OP_IF: u8 = 0x63;
pub const OP_ELSE: u8 = 0x67;
pub const OP_ENDIF: u8 = 0x68;
pub const OP_DROP: u8 = 0x75;
pub const OP_CHECKSIG: u8 = 0xac;
pub const OP_CHECKLOCKTIMEVERIFY: u8 = 0xb1;
/// Pushes the next 20 bytes.
pub const OP_PUSHBYTES_20: u8 = 0x14;
/// Pushes the next 32 bytes.
pub const OP_PUSHBYTES_32: u8 = 0x20;
/// Pushes the next 33 bytes.
pub const OP_PUSHBYTES_33: u8 = 0x21;

/// Little-endian bytes of `v` with no trailing zero byte.
pub open spec fn le_minimal(v: nat) -> Seq<u8>
    decreases v,
{
    if v == 0 {
        Seq::empty()
    } else {
        seq![(v % 256) as u8] + le_minimal(v / 256)
    }
}

/// Minimal script-number encoding of a non-negative number: its little-endian
/// bytes, with a zero byte added where the top bit would read as a sign.
pub open spec fn script_num(v: nat) -> Seq<u8> {
    let b = le_minimal(v);
    if b.len() > 0 && b.last() >= 0x80 {
        b.push(0)
    } else {
        b
    }
}

/// Shortest script that pushes the number `v`: `OP_0`, one of
/// `OP_1 ..= OP_16`, or a direct push of its script-number encoding.
pub open spec fn push_int_of(v: nat) -> Seq<u8> {
    if v == 0 {
        seq![OP_0]
    } else if v <= 16 {
        seq![(0x50 + v) as u8]
    } else {
        seq![script_num(v).len() as u8] + script_num(v)
    }
}

/// `0 <20-byte hash>`: pays to the key whose hash160 is `key_hash`.
pub open spec fn p2wpkh_program(key_hash: Seq<u8>) -> Seq<u8> {
    seq![OP_0, OP_PUSHBYTES_20] + key_hash
}

/// The P2WPKH script of a public key.
pub open spec fn p2wpkh_script_of(key: Seq<u8>) -> Seq<u8> {
    p2wpkh_program(hash160_of(key))
}

/// `0 <32-byte hash>`: pays to the witness script whose SHA-256 is given.
pub open spec fn p2wsh_script_of(witness_script: Seq<u8>) -> Seq<u8> {
    seq![OP_0, OP_PUSHBYTES_32] + sha256_of(witness_script)
}

/// The challenge witness script:
/// `OP_IF <acceptor> OP_CHECKSIG OP_ELSE <lock_time> OP_CHECKLOCKTIMEVERIFY
/// OP_DROP <challenger> OP_CHECKSIG OP_ENDIF`.
pub open spec fn challenge_script_of(challenger: Seq<u8>, acceptor: Seq<u8>, lock_time: u32) -> Seq<u8> {
    seq![OP_IF, OP_PUSHBYTES_33] + acceptor + seq![OP_CHECKSIG, OP_ELSE] + push_int_of(
        lock_time as nat,
    ) + seq![OP_CHECKLOCKTIMEVERIFY, OP_DROP, OP_PUSHBYTES_33] + challenger + seq![
        OP_CHECKSIG,
        OP_ENDIF,
    ]
}

/// Appends `src` to `dst`.
pub fn push_all(dst: &mut Vec<u8>, src: &[u8])
    ensures
        final(dst)@ == old(dst)@ + src@,
{
    let mut i: usize = 0;
    while i < src.len()
        invariant
            i <= src@.len(),
            dst@ == old(dst)@ + src@.subrange(0, i as int),
        decreases src@.len() - i,
    {
        dst.push(src[i]);
        i = i + 1;
        assert(dst@ =~= old(dst)@ + src@.subrange(0, i as int));
    }
    assert(src@.subrange(0, src@.len() as int) =~= src@);
}

/// A copy of a byte string.
pub fn copy_bytes(a: &Vec<u8>) -> (r: Vec<u8>)
    ensures
        r@ == a@,
{
    let mut r: Vec<u8> = Vec::new();
    push_all(&mut r, a.as_slice());
    r
}

proof fn lemma_le_minimal_short(v: nat)
    requires
        v < 0x1_0000_0000,
    ensures
        le_minimal(v).len() <= 4,
{
    let v1 = v / 256;
    let v2 = v1 / 256;
    let v3 = v2 / 256;
    let v4 = v3 / 256;
    assert(v4 == 0);
    reveal_with_fuel(le_minimal, 5);
}

/// The shortest script that pushes `v`.
pub fn push_int(v: u32) -> (r: Vec<u8>)
    ensures
        r@ == push_int_of(v as nat),
{
    if v == 0 {
        return vec![OP_0];
    }
    if v <= 16 {
        return vec![(0x50 + v) as u8];
    }
    let mut num: Vec<u8> = Vec::new();
    let mut rest: u32 = v;
    while rest > 0
        invariant
            num@ + le_minimal(rest as nat) == le_minimal(v as nat),
        decreases rest,
    {
        let ghost before = num@;
        num.push((rest % 256) as u8);
        assert(le_minimal(rest as nat) == seq![(rest % 256) as u8] + le_minimal((rest / 256) as nat));
        assert(num@ + le_minimal((rest / 256) as nat) =~= before + le_minimal(rest as nat));
        rest = rest / 256;
    }
    assert(num@ =~= le_minimal(v as nat));
    proof {
        lemma_le_minimal_short(v as nat);
    }
    let n = num.len();
    if num[n - 1] >= 0x80 {
        num.push(0);
    }
    assert(num@ == script_num(v as nat));
    let mut r: Vec<u8> = vec![num.len() as u8];
    push_all(&mut r, num.as_slice());
    r
}

/// The P2WPKH script of a public key.
pub fn create_p2wpkh_script(key: &PublicKey) -> (r: Vec<u8>)
    ensures
        r@ == p2wpkh_script_of(key@),
        r@.len() == 22,
{
    let hash = hash160(&key.serialize());
    let mut r: Vec<u8> = vec![OP_0, OP_PUSHBYTES_20];
    push_all(&mut r, &hash);
    r
}

/// The P2WSH script of a witness script.
pub fn p2wsh_script(witness_script: &[u8]) -> (r: Vec<u8>)
    ensures
        r@ == p2wsh_script_of(witness_script@),
{
    let hash = sha256(witness_script);
    let mut r: Vec<u8> = vec![OP_0, OP_PUSHBYTES_32];
    push_all(&mut r, &hash);
    r
}

/// The challenge witness script: the tweaked acceptor key may spend at once,
/// the challenger key once the absolute lock time `lock_time` is reached.
pub fn challenge_script(challenger: &PublicKey, tweaked_acceptor: &PublicKey, lock_time: u32) -> (r: Vec<u8>)
    ensures
        r@ == challenge_script_of(challenger@, tweaked_acceptor@, lock_time),
{
    let mut r: Vec<u8> = vec![OP_IF, OP_PUSHBYTES_33];
    push_all(&mut r, &tweaked_acceptor.serialize());
    r.push(OP_CHECKSIG);
    r.push(OP_ELSE);
    let lt = push_int(lock_time);
    push_all(&mut r, lt.as_slice());
    r.push(OP_CHECKLOCKTIMEVERIFY);
    r.push(OP_DROP);
    r.push(OP_PUSHBYTES_33);
    push_all(&mut r, &challenger.serialize());
    r.push(OP_CHECKSIG);
    r.push(OP_ENDIF);
    assert(r@ =~= challenge_script_of(challenger@, tweaked_acceptor@, lock_time));
    r
}

/// The sum of two public keys; an error where it is the point at infinity.
pub fn combine_public_keys(base: &PublicKey, tweak: &PublicKey) -> (r: Result<PublicKey, TransactionError>)
    ensures
        r.is_ok() <==> key_sum(base@, tweak@).is_some(),
        r.is_ok() ==> key_sum(base@, tweak@) == Some(r.unwrap()@),
        r.is_err() ==> r->Err_0 == TransactionError::Secp256k1(CryptoError::InvalidPublicKeySum),
{
    match base.combine(tweak) {
        Ok(k) => Ok(k),
        Err(e) => Err(TransactionError::Secp256k1(e)),
    }
}

/// The deposit output's script: P2WPKH over the challenger's key plus the
/// chosen first-rank key.
pub fn create_init_output_script(challenger: &PublicKey, tweak: &PublicKey) -> (r: Result<Vec<u8>, TransactionError>)
    ensures
        r.is_ok() <==> key_sum(challenger@, tweak@).is_some(),
        r.is_ok() ==> r.unwrap()@ == p2wpkh_script_of(key_sum(challenger@, tweak@).unwrap()),
        r.is_err() ==> r->Err_0 == TransactionError::Secp256k1(CryptoError::InvalidPublicKeySum),
{
    let combined = combine_public_keys(challenger, tweak)?;
    Ok(create_p2wpkh_script(&combined))
}

/// The challenge output's script: P2WSH over the challenge script whose
/// immediate branch is the acceptor's key plus the chosen third-rank key.
pub fn create_close_output_script(
    challenger: &PublicKey,
    acceptor: &PublicKey,
    tweak: &PublicKey,
    lock_time: u32,
) -> (r: Result<Vec<u8>, TransactionError>)
    ensures
        r.is_ok() <==> key_sum(acceptor@, tweak@).is_some(),
        r.is_ok() ==> r.unwrap()@ == p2wsh_script_of(challenge_script_of(challenger@, key_sum(acceptor@, tweak@).unwrap(), lock_time)),
        r.is_err() ==> r->Err_0 == TransactionError::Secp256k1(CryptoError::InvalidPublicKeySum),
{
    let tweaked = combine_public_keys(acceptor, tweak)?;
    let witness_script = challenge_script(challenger, &tweaked, lock_time);
    Ok(p2wsh_script(witness_script.as_slice()))
}

} // verus!
