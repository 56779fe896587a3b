//! What the protocol hands to its zero-knowledge circuits and gets back from
//! them: proofs with their verification keys, the public signals a proof
//! carries, and the witness each circuit is run on.
//!
//! A witness is a list of decimal strings, one per byte, in the order the
//! circuit's main function declares its inputs.

use crate::commitment::{FirstRankCommitment, ThirdRankCommitment};
use crate::crypto::{serialize_uncompressed, uncompressed_of, PublicKey};
use vstd::prelude::*;

verus! {

/// Errors of proof generation and verification.
#[derive(Clone, Debug, PartialEq, Eq)]
pub enum ProverError {
    ProofGenerationError(String),
    ProofVerificationError(String),
    SetupError(String),
    InvalidNumberOfPublicSignals { expected: usize, got: usize },
    InvalidProof,
}

/// A proof of one of the two circuits, with its verification key.
#[derive(Clone, Debug)]
pub struct OpRandProof {
    data: Vec<u8>,
    vk: Vec<u8>,
}

/// Size of one public signal in a proof.
pub const SIGNAL_SIZE: usize = 32;

impl OpRandProof {
    pub closed spec fn proof_view(&self) -> Seq<u8> {
        self.data@
    }

    pub closed spec fn vk_view(&self) -> Seq<u8> {
        self.vk@
    }

    /// A proof and its verification key.
    pub fn new(proof: Vec<u8>, vk: Vec<u8>) -> (r: OpRandProof)
        ensures
            r.proof_view() == proof@,
            r.vk_view() == vk@,
    {
        OpRandProof { data: proof, vk }
    }

    /// The proof bytes.
    pub fn proof_bytes(&self) -> (r: &[u8])
        ensures
            r@ == self.proof_view(),
    {
        self.data.as_slice()
    }

    /// The verification key bytes.
    pub fn vk(&self) -> (r: &[u8])
        ensures
            r@ == self.vk_view(),
    {
        self.vk.as_slice()
    }

    /// The first `n_signals` 32-byte chunks of the proof, as far as the proof
    /// holds whole chunks.
    pub fn extract_public_signals(&self, n_signals: usize) -> (r: Vec<&[u8]>)
        ensures
            r@.len() == if n_signals <= self.proof_view().len() / 32 {
                n_signals as int
            } else {
                (self.proof_view().len() / 32) as int
            },
            forall|i: int|
                0 <= i < r@.len() ==> #[trigger] r@[i]@ == self.proof_view().subrange(32 * i, 32 * i + 32),
    {
        let proof = self.proof_bytes();
        let mut result: Vec<&[u8]> = Vec::new();
        let mut i: usize = 0;
        while i < n_signals && proof.len() / SIGNAL_SIZE > i
            invariant
                i <= n_signals,
                i <= proof@.len() / 32,
                proof@ == self.proof_view(),
                result@.len() == i,
                forall|k: int| 0 <= k < i ==> #[trigger] result@[k]@ == proof@.subrange(32 * k, 32 * k + 32),
            decreases n_signals - i,
        {
            let start = i * SIGNAL_SIZE;
            let end = start + SIGNAL_SIZE;
            result.push(vstd::slice::slice_subrange(proof, start, end));
            i = i + 1;
        }
        result
    }
}

/// The prover backend and whether it makes recursive proofs.
#[derive(Clone, Copy, Debug, Default)]
pub struct BarretenbergProver {
    pub is_recursive: bool,
}

impl BarretenbergProver {
    /// A prover backend.
    pub fn new(is_recursive: bool) -> (r: BarretenbergProver)
        ensures
            r.is_recursive == is_recursive,
    {
        BarretenbergProver { is_recursive }
    }
}

/// The string field `bytecode` of a JSON document, if the document parses
/// and has one.
pub uninterp spec fn bytecode_field_of(json: Seq<char>) -> Option<Seq<char>>;

/// Relies on `serde_json::from_str` into a `serde_json::Value`, `Value::get`
/// and `Value::as_str`.
#[verifier::external_body]
fn json_bytecode_field(json: &str) -> (r: Option<String>)
    ensures
        r.is_some() == bytecode_field_of(json@).is_some(),
        r.is_some() ==> bytecode_field_of(json@) == Some(r.unwrap()@),
{
    let value: serde_json::Value = serde_json::from_str(json).ok()?;
    value.get("bytecode").and_then(|v| v.as_str()).map(|s| s.to_string())
}

/// A compiled circuit, as loaded from its JSON description.
#[derive(Clone, Debug)]
pub struct CircuitMetadata {
    pub bytecode: String,
}

impl CircuitMetadata {
    /// The circuit described by a JSON document: its `bytecode` field, which
    /// must be a string.
    pub fn from_json(json: &str) -> (r: Option<CircuitMetadata>)
        ensures
            r.is_some() == bytecode_field_of(json@).is_some(),
            r.is_some() ==> bytecode_field_of(json@) == Some(r.unwrap().bytecode@),
    {
        match json_bytecode_field(json) {
            Some(bytecode) => Some(CircuitMetadata { bytecode }),
            None => None,
        }
    }
}

/// Decimal digits of a byte, without leading zeros.
pub open spec fn decimal_of(b: u8) -> Seq<char> {
    let n = b as int;
    if n < 10 {
        seq![digit_char(n)]
    } else if n < 100 {
        seq![digit_char(n / 10), digit_char(n % 10)]
    } else {
        seq![digit_char(n / 100), digit_char((n / 10) % 10), digit_char(n % 10)]
    }
}

/// The character of a decimal digit.
pub open spec fn digit_char(n: int) -> char {
    (('0' as int) + n) as char
}

/// Relies on `u8`'s `ToString`, which writes the byte in decimal.
#[verifier::external_body]
fn byte_to_decimal(b: u8) -> (r: String)
    ensures
        r@ == decimal_of(b),
{
    b.to_string()
}

/// The witness entries of some bytes.
pub open spec fn witness_of_bytes(bytes: Seq<u8>) -> Seq<Seq<char>> {
    bytes.map_values(|b: u8| decimal_of(b))
}

/// The strings as character sequences.
pub open spec fn strings_view(v: Seq<String>) -> Seq<Seq<char>> {
    v.map_values(|s: String| s@)
}

/// Each byte as a decimal string.
pub fn bytes_to_string_array(bytes: &[u8]) -> (r: Vec<String>)
    ensures
        strings_view(r@) == witness_of_bytes(bytes@),
{
    let mut r: Vec<String> = Vec::new();
    let mut i: usize = 0;
    while i < bytes.len()
        invariant
            i <= bytes@.len(),
            strings_view(r@) == witness_of_bytes(bytes@.subrange(0, i as int)),
        decreases bytes@.len() - i,
    {
        let s = byte_to_decimal(bytes[i]);
        let ghost before = r@;
        r.push(s);
        assert(strings_view(r@) =~= strings_view(before).push(s@));
        assert(bytes@.subrange(0, i + 1) =~= bytes@.subrange(0, i as int).push(bytes@[i as int]));
        assert(witness_of_bytes(bytes@.subrange(0, i + 1)) =~= witness_of_bytes(bytes@.subrange(0, i as int)).push(
            decimal_of(bytes@[i as int]),
        ));
        i = i + 1;
    }
    assert(bytes@.subrange(0, bytes@.len() as int) =~= bytes@);
    r
}

/// The coordinates `x || y` of a point.
pub open spec fn coordinates_of(key: Seq<u8>) -> Seq<u8> {
    uncompressed_of(key).subrange(1, 65)
}

/// The bytes of the challenger circuit's witness: the two first-rank secrets
/// (private), then the coordinates of both third-rank keys, of the
/// challenger's key, and the hash of the tweaked challenger key (public).
pub open spec fn challenger_witness_bytes(
    first: [FirstRankCommitment; 2],
    third: [ThirdRankCommitment; 2],
    challenger: Seq<u8>,
    challenger_hash: Seq<u8>,
) -> Seq<u8> {
    first@[0].secret_view() + first@[1].secret_view() + coordinates_of(third@[0].public_view())
        + coordinates_of(third@[1].public_view()) + coordinates_of(challenger) + challenger_hash
}

/// The bytes of the acceptor circuit's witness: the coordinates of the
/// acceptor's key and its compact signature (private), then the coordinates
/// of both third-rank keys and the hash of the tweaked acceptor key (public).
pub open spec fn acceptor_witness_bytes(
    acceptor: Seq<u8>,
    signature: Seq<u8>,
    acceptor_hash: Seq<u8>,
    third: [ThirdRankCommitment; 2],
) -> Seq<u8> {
    coordinates_of(acceptor) + signature + coordinates_of(third@[0].public_view()) + coordinates_of(
        third@[1].public_view(),
    ) + acceptor_hash
}

/// Appends the coordinates `x || y` of a point.
fn push_coordinates(dst: &mut Vec<u8>, key: &PublicKey)
    ensures
        final(dst)@ == old(dst)@ + coordinates_of(key@),
{
    let full = serialize_uncompressed(key);
    let xy = vstd::slice::slice_subrange(&full, 1, 65);
    crate::script::push_all(dst, xy);
}

impl BarretenbergProver {
    /// The witness of the challenger circuit.
    pub fn challenger_witness(
        &self,
        first_rank_commitments: &[FirstRankCommitment; 2],
        third_rank_commitments: &[ThirdRankCommitment; 2],
        challenger_public_key: &PublicKey,
        challenger_public_key_hash: &[u8; 20],
    ) -> (r: Vec<String>)
        ensures
            strings_view(r@) == witness_of_bytes(
                challenger_witness_bytes(
                    *first_rank_commitments,
                    *third_rank_commitments,
                    challenger_public_key@,
                    challenger_public_key_hash@,
                ),
            ),
    {
        let mut bytes: Vec<u8> = Vec::new();
        let (a1, _) = first_rank_commitments[0].inner();
        let (a2, _) = first_rank_commitments[1].inner();
        crate::script::push_all(&mut bytes, &a1.secret_bytes());
        crate::script::push_all(&mut bytes, &a2.secret_bytes());
        push_coordinates(&mut bytes, &third_rank_commitments[0].inner());
        push_coordinates(&mut bytes, &third_rank_commitments[1].inner());
        push_coordinates(&mut bytes, challenger_public_key);
        crate::script::push_all(&mut bytes, challenger_public_key_hash);
        assert(bytes@ =~= challenger_witness_bytes(
            *first_rank_commitments,
            *third_rank_commitments,
            challenger_public_key@,
            challenger_public_key_hash@,
        ));
        bytes_to_string_array(bytes.as_slice())
    }

    /// The witness of the acceptor circuit.
    pub fn acceptor_witness(
        &self,
        acceptor_public_key: &PublicKey,
        acceptor_signature: &[u8; 64],
        acceptor_public_key_hash: &[u8; 20],
        third_rank_commitments: &[ThirdRankCommitment; 2],
    ) -> (r: Vec<String>)
        ensures
            strings_view(r@) == witness_of_bytes(
                acceptor_witness_bytes(
                    acceptor_public_key@,
                    acceptor_signature@,
                    acceptor_public_key_hash@,
                    *third_rank_commitments,
                ),
            ),
    {
        let mut bytes: Vec<u8> = Vec::new();
        push_coordinates(&mut bytes, acceptor_public_key);
        crate::script::push_all(&mut bytes, acceptor_signature);
        push_coordinates(&mut bytes, &third_rank_commitments[0].inner());
        push_coordinates(&mut bytes, &third_rank_commitments[1].inner());
        crate::script::push_all(&mut bytes, acceptor_public_key_hash);
        assert(bytes@ =~= acceptor_witness_bytes(
            acceptor_public_key@,
            acceptor_signature@,
            acceptor_public_key_hash@,
            *third_rank_commitments,
        ));
        bytes_to_string_array(bytes.as_slice())
    }
}

} // verus!
