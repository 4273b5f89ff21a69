//! The template hash of a transaction.

use crate::encoding::{
    count_u32, i32_le, put_bytes, put_count, put_i32_le, put_u32_le, put_u64_le, put_var_bytes,
    u32_le, u64_le, var_bytes,
};
use crate::transaction::{Transaction, TransactionView, TxInView, TxOutView};
use sha2::Digest;
use vstd::prelude::*;

verus! {

/// The SHA-256 digest of a byte string.
pub uninterp spec fn spec_sha256(data: Seq<u8>) -> Seq<u8>;

/// Computes the SHA-256 digest of `data`.
///
/// Feeds `data` to a fresh `sha2::Sha256` and finalizes it. The contract names
/// the digest, which depends on `data` alone, and states its length: SHA-256
/// digests are 32 bytes long.
#[verifier::external_body]
pub fn sha256(data: Vec<u8>) -> (digest: Vec<u8>)
    ensures
        digest@ == spec_sha256(data@),
        digest@.len() == 32,
{
    let mut hasher = sha2::Sha256::new();
    hasher.update(data);
    hasher.finalize().to_vec()
}

/// Whether at least one input carries a non-empty unlocking script.
pub open spec fn has_script_sigs(input: Seq<TxInView>) -> bool {
    exists|i: int| 0 <= i < input.len() && (#[trigger] input[i]).script_sig.len() > 0
}

/// The unlocking scripts of all inputs, each behind its length, in input order.
pub open spec fn script_sigs_bytes(input: Seq<TxInView>) -> Seq<u8>
    decreases input.len(),
{
    if input.len() == 0 {
        Seq::empty()
    } else {
        script_sigs_bytes(input.drop_last()) + var_bytes(input.last().script_sig)
    }
}

/// The sequence numbers of all inputs, four bytes each, in input order.
pub open spec fn sequences_bytes(input: Seq<TxInView>) -> Seq<u8>
    decreases input.len(),
{
    if input.len() == 0 {
        Seq::empty()
    } else {
        sequences_bytes(input.drop_last()) + u32_le(input.last().sequence)
    }
}

/// The consensus encoding of one output: the amount in eight bytes, then
/// the locking script behind its length.
pub open spec fn output_bytes(output: TxOutView) -> Seq<u8> {
    u64_le(output.value) + var_bytes(output.script_pubkey)
}

/// The consensus encodings of all outputs, in output order.
pub open spec fn outputs_bytes(output: Seq<TxOutView>) -> Seq<u8>
    decreases output.len(),
{
    if output.len() == 0 {
        Seq::empty()
    } else {
        outputs_bytes(output.drop_last()) + output_bytes(output.last())
    }
}

/// The part of the hashed message that stands for the unlocking scripts: the
/// digest of all of them if any is non-empty, and nothing at all otherwise.
pub open spec fn script_sigs_segment(input: Seq<TxInView>) -> Seq<u8> {
    if has_script_sigs(input) {
        spec_sha256(script_sigs_bytes(input))
    } else {
        Seq::empty()
    }
}

/// The message whose digest is the template hash of `tx` at input `index`.
pub open spec fn ctv_preimage(tx: TransactionView, index: u32) -> Seq<u8> {
    i32_le(tx.version) + u32_le(tx.lock_time) + script_sigs_segment(tx.input) + u32_le(
        count_u32(tx.input.len()),
    ) + spec_sha256(sequences_bytes(tx.input)) + u32_le(count_u32(tx.output.len()))
        + spec_sha256(outputs_bytes(tx.output)) + u32_le(index)
}

/// The message of [`ctv_preimage`] without the part for the unlocking
/// scripts.
pub open spec fn ctv_preimage_without_script_sigs(tx: TransactionView, index: u32) -> Seq<u8> {
    i32_le(tx.version) + u32_le(tx.lock_time) + u32_le(count_u32(tx.input.len())) + spec_sha256(
        sequences_bytes(tx.input),
    ) + u32_le(count_u32(tx.output.len())) + spec_sha256(outputs_bytes(tx.output)) + u32_le(index)
}

/// The template hash of `tx` at input `index`.
pub open spec fn spec_ctv(tx: TransactionView, index: u32) -> Seq<u8> {
    spec_sha256(ctv_preimage(tx, index))
}

/// Where every unlocking script is empty, the hashed message holds nothing
/// for them: no digest, and no filler in its place.
pub proof fn lemma_empty_script_sigs_leave_no_segment(tx: TransactionView, index: u32)
    requires
        forall|i: int| 0 <= i < tx.input.len() ==> (#[trigger] tx.input[i]).script_sig.len() == 0,
    ensures
        !has_script_sigs(tx.input),
        script_sigs_segment(tx.input) == Seq::<u8>::empty(),
        ctv_preimage(tx, index) == ctv_preimage_without_script_sigs(tx, index),
        spec_ctv(tx, index) == spec_sha256(ctv_preimage_without_script_sigs(tx, index)),
{
    assert(ctv_preimage(tx, index) =~= ctv_preimage_without_script_sigs(tx, index));
}

/// Where some unlocking script is not empty, the hashed message holds the
/// digest of all of them between the lock time and the input count.
pub proof fn lemma_script_sigs_add_their_digest(tx: TransactionView, index: u32)
    requires
        has_script_sigs(tx.input),
    ensures
        ctv_preimage(tx, index) == i32_le(tx.version) + u32_le(tx.lock_time) + spec_sha256(
            script_sigs_bytes(tx.input),
        ) + u32_le(count_u32(tx.input.len())) + spec_sha256(sequences_bytes(tx.input)) + u32_le(
            count_u32(tx.output.len()),
        ) + spec_sha256(outputs_bytes(tx.output)) + u32_le(index),
{
}

/// What is hashed of a single input and of a single output: the four bytes
/// of the sequence number, and the encoding of the output.
pub proof fn lemma_bytes_of_single_input_and_output(input: Seq<TxInView>, output: Seq<TxOutView>)
    requires
        input.len() == 1,
        output.len() == 1,
    ensures
        sequences_bytes(input) == u32_le(input[0].sequence),
        outputs_bytes(output) == output_bytes(output[0]),
{
    assert(input.drop_last() =~= Seq::<TxInView>::empty());
    assert(sequences_bytes(Seq::<TxInView>::empty()) =~= Seq::<u8>::empty());
    assert(sequences_bytes(input) =~= u32_le(input[0].sequence));
    assert(output.drop_last() =~= Seq::<TxOutView>::empty());
    assert(outputs_bytes(Seq::<TxOutView>::empty()) =~= Seq::<u8>::empty());
    assert(outputs_bytes(output) =~= output_bytes(output[0]));
}

/// The template hash is a function of the transaction's value and the index
/// alone: transactions of equal value hash alike.
pub proof fn lemma_hash_is_deterministic(a: Transaction, b: Transaction, index: u32)
    requires
        a@ == b@,
    ensures
        spec_ctv(a@, index) == spec_ctv(b@, index),
{
}

/// The digest of the unlocking scripts of `tx`, or `None` if all are empty.
pub fn scriptsigs(tx: &Transaction) -> (segment: Option<Vec<u8>>)
    ensures
        has_script_sigs(tx@.input) <==> segment is Some,
        segment matches Some(digest) ==> digest@ == spec_sha256(script_sigs_bytes(tx@.input)),
        segment matches Some(digest) ==> digest@.len() == 32,
{
    let mut any = false;
    let mut buf: Vec<u8> = Vec::new();
    let mut i: usize = 0;
    while i < tx.input.len()
        invariant
            i <= tx.input.len(),
            any <==> has_script_sigs(tx@.input.take(i as int)),
            buf@ == script_sigs_bytes(tx@.input.take(i as int)),
        decreases tx.input.len() - i,
    {
        let ghost before = tx@.input.take(i as int);
        let ghost after = tx@.input.take(i + 1);
        assert(after.drop_last() =~= before);
        assert(after.last() == tx.input[i as int]@);
        if tx.input[i].script_sig.len() > 0 {
            any = true;
            assert(after[i as int].script_sig.len() > 0);
        } else if any {
            let ghost k = choose|k: int|
                0 <= k < before.len() && (#[trigger] before[k]).script_sig.len() > 0;
            assert(after[k] == before[k]);
        } else {
            assert forall|k: int| 0 <= k < after.len() implies !((#[trigger] after[k]).script_sig
                .len() > 0) by {
                if k < i {
                    assert(before[k] == after[k]);
                }
            }
        }
        put_var_bytes(&mut buf, &tx.input[i].script_sig);
        i += 1;
    }
    assert(tx@.input.take(i as int) =~= tx@.input);
    if any {
        Some(sha256(buf))
    } else {
        None
    }
}

/// The digest of the sequence numbers of `tx`.
pub fn sequences(tx: &Transaction) -> (digest: Vec<u8>)
    ensures
        digest@ == spec_sha256(sequences_bytes(tx@.input)),
        digest@.len() == 32,
{
    let mut buf: Vec<u8> = Vec::new();
    let mut i: usize = 0;
    while i < tx.input.len()
        invariant
            i <= tx.input.len(),
            buf@ == sequences_bytes(tx@.input.take(i as int)),
        decreases tx.input.len() - i,
    {
        assert(tx@.input.take(i + 1).drop_last() =~= tx@.input.take(i as int));
        assert(tx@.input.take(i + 1).last() == tx.input[i as int]@);
        put_u32_le(&mut buf, tx.input[i].sequence);
        i += 1;
    }
    assert(tx@.input.take(i as int) =~= tx@.input);
    sha256(buf)
}

/// The digest of the encoded outputs of `tx`.
pub fn outputs(tx: &Transaction) -> (digest: Vec<u8>)
    ensures
        digest@ == spec_sha256(outputs_bytes(tx@.output)),
        digest@.len() == 32,
{
    let mut buf: Vec<u8> = Vec::new();
    let mut i: usize = 0;
    while i < tx.output.len()
        invariant
            i <= tx.output.len(),
            buf@ == outputs_bytes(tx@.output.take(i as int)),
        decreases tx.output.len() - i,
    {
        assert(tx@.output.take(i + 1).drop_last() =~= tx@.output.take(i as int));
        assert(tx@.output.take(i + 1).last() == tx.output[i as int]@);
        let ghost before = buf@;
        put_u64_le(&mut buf, tx.output[i].value);
        put_var_bytes(&mut buf, &tx.output[i].script_pubkey);
        assert(buf@ =~= before + output_bytes(tx.output[i as int]@));
        i += 1;
    }
    assert(tx@.output.take(i as int) =~= tx@.output);
    sha256(buf)
}

/// Computes the template hash of `tx` for a spend at input `input`: the
/// digest of the version, the lock time, the digest of the unlocking scripts
/// if any is non-empty, the input count, the digest of the sequence numbers,
/// the output count, the digest of the outputs, and the input index.
pub fn ctv(tx: &Transaction, input: u32) -> (hash: Vec<u8>)
    ensures
        hash@ == spec_ctv(tx@, input),
        hash@.len() == 32,
        script_sigs_segment(tx@.input).len() == (if has_script_sigs(tx@.input) {
            32int
        } else {
            0int
        }),
        spec_sha256(sequences_bytes(tx@.input)).len() == 32,
        spec_sha256(outputs_bytes(tx@.output)).len() == 32,
        ctv_preimage(tx@, input).len() == (if has_script_sigs(tx@.input) {
            116int
        } else {
            84int
        }),
{
    let mut buf: Vec<u8> = Vec::new();
    put_i32_le(&mut buf, tx.version);
    put_u32_le(&mut buf, tx.lock_time);
    match scriptsigs(tx) {
        Some(digest) => {
            put_bytes(&mut buf, &digest);
        },
        None => {},
    }
    assert(buf@ =~= i32_le(tx.version) + u32_le(tx.lock_time) + script_sigs_segment(tx@.input));
    put_count(&mut buf, tx.input.len());
    let seqs = sequences(tx);
    put_bytes(&mut buf, &seqs);
    put_count(&mut buf, tx.output.len());
    let outs = outputs(tx);
    put_bytes(&mut buf, &outs);
    put_u32_le(&mut buf, input);
    assert(buf@ =~= ctv_preimage(tx@, input));
    sha256(buf)
}

} // verus!
