//! Concrete transactions: what a template is materialized into.

use crate::encoding::{
    bytes_option, compact_size, hex_encode, hex_text, put_bytes, put_compact_size,
};
use crate::error::CtvError;
use crate::markup::text_option;
use bitcoin::absolute::LockTime;
use bitcoin::transaction::Version;
use bitcoin::{
    hashes, Amount, OutPoint as BitcoinOutPoint, ScriptBuf, Sequence, Transaction as BitcoinTx,
    TxIn as BitcoinTxIn, TxOut as BitcoinTxOut, Witness,
};
use vstd::prelude::*;

verus! {

/// A reference to one output of an earlier transaction.
#[derive(Clone, Debug, PartialEq, Eq)]
pub struct OutPoint {
    /// The identifier of the earlier transaction, in the byte order of the
    /// consensus encoding.
    pub txid: [u8; 32],
    /// The position of the output in that transaction.
    pub vout: u32,
}

/// The mathematical value of an [`OutPoint`].
pub struct OutPointView {
    pub txid: Seq<u8>,
    pub vout: u32,
}

impl View for OutPoint {
    type V = OutPointView;

    open spec fn view(&self) -> OutPointView {
        OutPointView { txid: self.txid@, vout: self.vout }
    }
}

/// One input of a transaction.
#[derive(Clone, Debug, PartialEq, Eq)]
pub struct TxIn {
    /// The output that this input spends.
    pub previous_output: OutPoint,
    /// The unlocking script, as raw bytes.
    pub script_sig: Vec<u8>,
    /// The sequence number.
    pub sequence: u32,
    /// The witness stack, bottom item first.
    pub witness: Vec<Vec<u8>>,
}

/// The values of the items of a witness stack, in order.
pub open spec fn witness_view(witness: Seq<Vec<u8>>) -> Seq<Seq<u8>> {
    Seq::new(witness.len(), |i: int| witness[i]@)
}

/// The mathematical value of a [`TxIn`].
pub struct TxInView {
    pub previous_output: OutPointView,
    pub script_sig: Seq<u8>,
    pub sequence: u32,
    pub witness: Seq<Seq<u8>>,
}

impl View for TxIn {
    type V = TxInView;

    open spec fn view(&self) -> TxInView {
        TxInView {
            previous_output: self.previous_output@,
            script_sig: self.script_sig@,
            sequence: self.sequence,
            witness: witness_view(self.witness@),
        }
    }
}

/// One output of a transaction.
#[derive(Clone, Debug, PartialEq, Eq)]
pub struct TxOut {
    /// The amount paid, in satoshis.
    pub value: u64,
    /// The locking script, as raw bytes.
    pub script_pubkey: Vec<u8>,
}

/// The mathematical value of a [`TxOut`].
pub struct TxOutView {
    pub value: u64,
    pub script_pubkey: Seq<u8>,
}

impl View for TxOut {
    type V = TxOutView;

    open spec fn view(&self) -> TxOutView {
        TxOutView { value: self.value, script_pubkey: self.script_pubkey@ }
    }
}

/// A transaction.
#[derive(Clone, Debug, PartialEq, Eq)]
pub struct Transaction {
    /// The version number.
    pub version: i32,
    /// The absolute lock time, as the consensus encoding holds it.
    pub lock_time: u32,
    /// The inputs, in order.
    pub input: Vec<TxIn>,
    /// The outputs, in order.
    pub output: Vec<TxOut>,
}

/// The mathematical value of a [`Transaction`].
pub struct TransactionView {
    pub version: i32,
    pub lock_time: u32,
    pub input: Seq<TxInView>,
    pub output: Seq<TxOutView>,
}

/// The values of a list of inputs, in order.
pub open spec fn inputs_view(input: Seq<TxIn>) -> Seq<TxInView> {
    Seq::new(input.len(), |i: int| input[i]@)
}

/// The values of a list of outputs, in order.
pub open spec fn outputs_view(output: Seq<TxOut>) -> Seq<TxOutView> {
    Seq::new(output.len(), |i: int| output[i]@)
}

impl View for Transaction {
    type V = TransactionView;

    open spec fn view(&self) -> TransactionView {
        TransactionView {
            version: self.version,
            lock_time: self.lock_time,
            input: inputs_view(self.input@),
            output: outputs_view(self.output@),
        }
    }
}

/// The values of a list of transactions, in order.
pub open spec fn chain_view(chain: Seq<Transaction>) -> Seq<TransactionView> {
    Seq::new(chain.len(), |i: int| chain[i]@)
}

/// The mathematical value of a result that holds an output.
pub open spec fn txout_result(r: Result<TxOut, CtvError>) -> Result<TxOutView, CtvError> {
    match r {
        Ok(out) => Ok(out@),
        Err(e) => Err(e),
    }
}

/// The mathematical value of a result that holds a list of outputs.
pub open spec fn txouts_result(r: Result<Vec<TxOut>, CtvError>) -> Result<
    Seq<TxOutView>,
    CtvError,
> {
    match r {
        Ok(outs) => Ok(outputs_view(outs@)),
        Err(e) => Err(e),
    }
}

/// The mathematical value of a result that holds a witness stack.
pub open spec fn witness_result(r: Result<Vec<Vec<u8>>, CtvError>) -> Result<
    Seq<Seq<u8>>,
    CtvError,
> {
    match r {
        Ok(witness) => Ok(witness_view(witness@)),
        Err(e) => Err(e),
    }
}

/// The mathematical value of a result that holds a transaction.
pub open spec fn tx_result(r: Result<Transaction, CtvError>) -> Result<TransactionView, CtvError> {
    match r {
        Ok(tx) => Ok(tx@),
        Err(e) => Err(e),
    }
}

/// The mathematical value of a result that holds a list of transactions.
pub open spec fn chain_result(r: Result<Vec<Transaction>, CtvError>) -> Result<
    Seq<TransactionView>,
    CtvError,
> {
    match r {
        Ok(chain) => Ok(chain_view(chain@)),
        Err(e) => Err(e),
    }
}

/// The outpoint that an input holds before it is bound to a real one: an
/// all-zero identifier and the largest output index.
pub open spec fn null_outpoint() -> OutPointView {
    OutPointView { txid: Seq::new(32, |i: int| 0u8), vout: 0xffff_ffffu32 }
}

impl OutPoint {
    /// The outpoint that refers to no output.
    pub fn null() -> (out: OutPoint)
        ensures
            out@ == null_outpoint(),
    {
        let out = OutPoint { txid: [0u8; 32], vout: 0xffff_ffff };
        assert(out.txid@ =~= null_outpoint().txid);
        out
    }
}

/// The identifier of a transaction: the double SHA-256 of its encoding
/// without witness data.
pub uninterp spec fn spec_txid(tx: TransactionView) -> Seq<u8>;

/// The canonical encoding of a transaction: in the form that holds witness
/// data if an input carries a witness or there is no input at all, and in
/// the form without it otherwise.
pub uninterp spec fn spec_serialize(tx: TransactionView) -> Seq<u8>;

/// The canonical encodings of the transactions of a list, one after another.
pub open spec fn transactions_bytes(chain: Seq<TransactionView>) -> Seq<u8>
    decreases chain.len(),
{
    if chain.len() == 0 {
        Seq::empty()
    } else {
        transactions_bytes(chain.drop_last()) + spec_serialize(chain.last())
    }
}

/// The canonical encoding of a list of transactions: their number, then
/// each of them.
pub open spec fn chain_bytes(chain: Seq<TransactionView>) -> Seq<u8> {
    compact_size(chain.len()) + transactions_bytes(chain)
}

/// The largest room that the witness stack of one input may take.
pub const WITNESS_LIMIT: u64 = 0xffff_ffff;

/// The room that a witness stack takes when it is kept as one block: for
/// each item its bytes, and nine more for its length.
pub open spec fn witness_weight(witness: Seq<Seq<u8>>) -> nat
    decreases witness.len(),
{
    if witness.len() == 0 {
        0
    } else {
        witness_weight(witness.drop_last()) + witness.last().len() + 9
    }
}

/// Whether a witness stack is small enough to be encoded.
pub open spec fn witness_fits(witness: Seq<Seq<u8>>) -> bool {
    witness_weight(witness) <= WITNESS_LIMIT
}

/// Whether the witness stack of every input of a transaction is small enough
/// to be encoded.
pub open spec fn witnesses_fit(tx: TransactionView) -> bool {
    forall|i: int| 0 <= i < tx.input.len() ==> witness_fits((#[trigger] tx.input[i]).witness)
}

/// Whether every transaction of a list can be encoded.
pub open spec fn chain_fits(chain: Seq<TransactionView>) -> bool {
    forall|i: int| 0 <= i < chain.len() ==> witnesses_fit(#[trigger] chain[i])
}

/// What [`Transaction::serialize_hex`] returns: the canonical encoding in
/// hexadecimal, or nothing if a witness stack is too large to be encoded.
pub open spec fn spec_serialize_hex(tx: TransactionView) -> Option<Seq<char>> {
    if witnesses_fit(tx) {
        Some(hex_text(spec_serialize(tx)))
    } else {
        None
    }
}

/// What [`serialize_chain`] returns: the canonical encoding of the list, or
/// nothing if a witness stack in it is too large to be encoded.
pub open spec fn spec_serialize_chain(chain: Seq<TransactionView>) -> Option<Seq<u8>> {
    if chain_fits(chain) {
        Some(chain_bytes(chain))
    } else {
        None
    }
}

/// What [`serialize_chain_hex`] returns.
pub open spec fn spec_serialize_chain_hex(chain: Seq<TransactionView>) -> Option<Seq<char>> {
    if chain_fits(chain) {
        Some(hex_text(chain_bytes(chain)))
    } else {
        None
    }
}

/// A part of a witness stack, taken from its start, takes no more room than
/// the whole.
proof fn lemma_witness_weight_grows(witness: Seq<Seq<u8>>, n: int)
    requires
        0 <= n <= witness.len(),
    ensures
        witness_weight(witness.take(n)) <= witness_weight(witness),
    decreases witness.len(),
{
    if n == witness.len() {
        assert(witness.take(n) =~= witness);
    } else {
        lemma_witness_weight_grows(witness.drop_last(), n);
        assert(witness.drop_last().take(n) =~= witness.take(n));
    }
}

/// A transaction whose only input carries one witness item of at most a
/// hundred bytes can be encoded.
pub proof fn lemma_single_small_witness_fits(tx: TransactionView)
    requires
        tx.input.len() == 1,
        tx.input[0].witness.len() == 1,
        tx.input[0].witness[0].len() <= 100,
    ensures
        witnesses_fit(tx),
{
    let witness = tx.input[0].witness;
    assert(witness.drop_last().len() == 0);
    assert(witness_weight(witness.drop_last()) == 0);
    assert(witness_weight(witness) == witness.last().len() + 9);
}

/// Tells whether a witness stack is small enough to be encoded.
fn witness_fits_in_limit(witness: &Vec<Vec<u8>>) -> (fits: bool)
    ensures
        fits == witness_fits(witness_view(witness@)),
{
    let ghost whole = witness_view(witness@);
    let mut total: u64 = 0;
    let mut i: usize = 0;
    while i < witness.len()
        invariant
            i <= witness.len(),
            whole == witness_view(witness@),
            total == witness_weight(whole.take(i as int)),
            total <= WITNESS_LIMIT,
        decreases witness.len() - i,
    {
        assert(whole.take(i + 1).drop_last() =~= whole.take(i as int));
        assert(whole.take(i + 1).last() == witness[i as int]@);
        proof {
            lemma_witness_weight_grows(whole, i + 1);
        }
        let len: usize = witness[i].len();
        if len > 0xffff_ffff {
            return false;
        }
        total = total + len as u64 + 9;
        if total > WITNESS_LIMIT {
            return false;
        }
        i += 1;
    }
    assert(whole.take(i as int) =~= whole);
    true
}

impl Transaction {
    /// Tells whether the witness stack of every input is small enough to be
    /// encoded.
    pub fn witnesses_fit(&self) -> (fits: bool)
        ensures
            fits == witnesses_fit(self@),
    {
        let mut i: usize = 0;
        while i < self.input.len()
            invariant
                i <= self.input.len(),
                forall|j: int| 0 <= j < i ==> witness_fits((#[trigger] self@.input[j]).witness),
            decreases self.input.len() - i,
        {
            assert(self@.input[i as int] == self.input[i as int]@);
            if !witness_fits_in_limit(&self.input[i].witness) {
                return false;
            }
            i += 1;
        }
        true
    }

    /// Encodes this transaction canonically.
    ///
    /// Builds the same transaction as a `bitcoin::Transaction`, field by
    /// field, and calls `bitcoin::consensus::serialize` on it. The contract
    /// names the result, which depends on the transaction alone. It leaves
    /// out the witness stacks that `bitcoin::Witness::from_slice` cannot hold:
    /// those in which an item starts beyond 2^32 bytes.
    #[verifier::external_body]
    pub(crate) fn serialize(&self) -> (bytes: Vec<u8>)
        requires
            witnesses_fit(self@),
        ensures
            bytes@ == spec_serialize(self@),
    {
        let input = self.input.iter().map(|i| BitcoinTxIn {
            previous_output: BitcoinOutPoint::new(
                hashes::Hash::from_byte_array(i.previous_output.txid),
                i.previous_output.vout,
            ),
            script_sig: ScriptBuf::from_bytes(i.script_sig.clone()),
            sequence: Sequence(i.sequence),
            witness: Witness::from_slice(&i.witness),
        }).collect();
        let output = self.output.iter().map(|o| BitcoinTxOut {
            value: Amount::from_sat(o.value),
            script_pubkey: ScriptBuf::from_bytes(o.script_pubkey.clone()),
        }).collect();
        let (version, lock_time) = (Version(self.version), LockTime::from_consensus(self.lock_time));
        bitcoin::consensus::serialize(&BitcoinTx { version, lock_time, input, output })
    }

    /// Writes the canonical encoding of this transaction in hexadecimal, if
    /// its witness stacks are small enough to be encoded.
    pub fn serialize_hex(&self) -> (text: Option<String>)
        ensures
            text_option(text) == spec_serialize_hex(self@),
    {
        if !self.witnesses_fit() {
            return None;
        }
        let bytes = self.serialize();
        Some(hex_encode(&bytes))
    }

    /// Computes the identifier of this transaction.
    ///
    /// Builds the same transaction as a `bitcoin::Transaction`, field by
    /// field, and calls `bitcoin::Transaction::compute_txid` on it.
    /// The contract names the result, which depends on the transaction alone,
    /// and says nothing else of it. It leaves out the witness stacks that
    /// `bitcoin::Witness::from_slice` cannot hold: those in which an item
    /// starts beyond 2^32 bytes.
    #[verifier::external_body]
    pub(crate) fn compute_txid(&self) -> (id: [u8; 32])
        requires
            witnesses_fit(self@),
        ensures
            id@ == spec_txid(self@),
    {
        let input = self.input.iter().map(|i| BitcoinTxIn {
            previous_output: BitcoinOutPoint::new(
                hashes::Hash::from_byte_array(i.previous_output.txid),
                i.previous_output.vout,
            ),
            script_sig: ScriptBuf::from_bytes(i.script_sig.clone()),
            sequence: Sequence(i.sequence),
            witness: Witness::from_slice(&i.witness),
        }).collect();
        let output = self.output.iter().map(|o| BitcoinTxOut {
            value: Amount::from_sat(o.value),
            script_pubkey: ScriptBuf::from_bytes(o.script_pubkey.clone()),
        }).collect();
        let (version, lock_time) = (Version(self.version), LockTime::from_consensus(self.lock_time));
        hashes::Hash::to_byte_array(BitcoinTx { version, lock_time, input, output }.compute_txid())
    }
}

/// Encodes a list of transactions canonically: their number, then each of
/// them. Gives nothing if a witness stack in the list is too large to be
/// encoded.
pub fn serialize_chain(chain: &Vec<Transaction>) -> (bytes: Option<Vec<u8>>)
    ensures
        bytes_option(bytes) == spec_serialize_chain(chain_view(chain@)),
{
    let ghost whole = chain_view(chain@);
    let mut body: Vec<u8> = Vec::new();
    let mut i: usize = 0;
    while i < chain.len()
        invariant
            i <= chain.len(),
            whole == chain_view(chain@),
            body@ == transactions_bytes(whole.take(i as int)),
            forall|j: int| 0 <= j < i ==> witnesses_fit(#[trigger] whole[j]),
        decreases chain.len() - i,
    {
        assert(whole.take(i + 1).drop_last() =~= whole.take(i as int));
        assert(whole.take(i + 1).last() == chain[i as int]@);
        assert(whole[i as int] == chain[i as int]@);
        if !chain[i].witnesses_fit() {
            return None;
        }
        let encoded = chain[i].serialize();
        put_bytes(&mut body, &encoded);
        i += 1;
    }
    assert(whole.take(i as int) =~= whole);
    let mut bytes: Vec<u8> = Vec::new();
    put_compact_size(&mut bytes, chain.len());
    put_bytes(&mut bytes, &body);
    Some(bytes)
}

/// Writes the canonical encoding of a list of transactions in hexadecimal,
/// if the witness stacks in it are small enough to be encoded.
pub fn serialize_chain_hex(chain: &Vec<Transaction>) -> (text: Option<String>)
    ensures
        text_option(text) == spec_serialize_chain_hex(chain_view(chain@)),
{
    match serialize_chain(chain) {
        Some(bytes) => Some(hex_encode(&bytes)),
        None => None,
    }
}

} // verus!
