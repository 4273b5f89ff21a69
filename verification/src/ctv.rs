//! Transaction templates and what they materialize into.

use crate::ctv::segwit::{commitment_script, locking_script};
use crate::ctv::util::spec_ctv;
use crate::error::{bytes_result, CtvError};
use crate::markup::{regex_replace_all, spec_regex_replace_all, spec_str_replace, str_replace};
use crate::network::Network;
use crate::script::{
    address_script, op_return_script, p2wsh_script, push_data, spec_address_script,
    spec_p2wsh_script, OP_RETURN, PUSH_LIMIT,
};
use crate::transaction::{
    chain_result, chain_view, lemma_single_small_witness_fits, null_outpoint, outputs_view,
    spec_txid, tx_result, txout_result, txouts_result, witness_result, witness_view,
    witnesses_fit, OutPoint, OutPointView, Transaction, TransactionView, TxIn, TxInView, TxOut,
    TxOutView,
};
use vstd::prelude::*;
use vstd::utf8::encode_utf8;

pub mod laws;
pub mod segwit;
pub mod util;

verus! {

/// A transaction template: everything of a future transaction but the
/// outputs it will spend.
#[derive(Debug, PartialEq, Eq)]
pub struct Ctv {
    /// The network whose addresses the outputs may pay to.
    pub network: Network,
    /// The version of the transaction.
    pub version: i32,
    /// The absolute lock time of the transaction.
    pub locktime: u32,
    /// The sequence number of each input, in input order.
    pub sequences: Vec<u32>,
    /// The outputs, in output order.
    pub outputs: Vec<Output>,
}

/// One output of a template.
#[derive(Debug, PartialEq, Eq)]
pub enum Output {
    /// Pays `amount` satoshis to an address.
    Address { address: String, amount: u64 },
    /// Carries data in an unspendable output of no value.
    Data { data: String },
    /// Pays `amount` satoshis into a script that only the transaction
    /// described by `tree` can spend.
    Tree { tree: Box<Ctv>, amount: u64 },
}

/// The mathematical value of a [`Ctv`].
pub struct CtvView {
    pub network: Network,
    pub version: i32,
    pub locktime: u32,
    pub sequences: Seq<u32>,
    pub outputs: Seq<OutputView>,
}

/// The mathematical value of an [`Output`].
pub enum OutputView {
    Address { address: Seq<char>, amount: u64 },
    Data { data: Seq<char> },
    Tree { tree: Box<CtvView>, amount: u64 },
}

/// The value of a template.
pub open spec fn ctv_view(c: Ctv) -> CtvView
    decreases c,
{
    CtvView {
        network: c.network,
        version: c.version,
        locktime: c.locktime,
        sequences: c.sequences@,
        outputs: Seq::new(
            c.outputs@.len(),
            |i: int|
                if 0 <= i < c.outputs@.len() {
                    output_view(c.outputs@[i])
                } else {
                    arbitrary()
                },
        ),
    }
}

/// The value of an output.
pub open spec fn output_view(o: Output) -> OutputView
    decreases o,
{
    match o {
        Output::Address { address, amount } => OutputView::Address { address: address@, amount },
        Output::Data { data } => OutputView::Data { data: data@ },
        Output::Tree { tree, amount } => OutputView::Tree {
            tree: Box::new(ctv_view(*tree)),
            amount,
        },
    }
}

impl View for Ctv {
    type V = CtvView;

    open spec fn view(&self) -> CtvView {
        ctv_view(*self)
    }
}

impl View for Output {
    type V = OutputView;

    open spec fn view(&self) -> OutputView {
        output_view(*self)
    }
}

/// The mathematical value of a result that holds a template.
pub open spec fn ctv_result(r: Result<Ctv, CtvError>) -> Result<CtvView, CtvError> {
    match r {
        Ok(c) => Ok(c@),
        Err(e) => Err(e),
    }
}

/// The input that a template holds for the sequence number `sequence`: bound
/// to no outpoint, with no unlocking script and no witness.
pub open spec fn template_input(sequence: u32) -> TxInView {
    TxInView {
        previous_output: null_outpoint(),
        script_sig: Seq::empty(),
        sequence,
        witness: Seq::empty(),
    }
}

/// The inputs of the transaction that a template with these sequence numbers
/// materializes into.
pub open spec fn template_inputs(sequences: Seq<u32>) -> Seq<TxInView> {
    Seq::new(sequences.len(), |i: int| template_input(sequences[i]))
}

/// What one output of a template on `network` materializes into.
///
/// An address output pays to the locking script of its address and fails
/// with `InvalidAddressForNetwork` if the text is no address of `network`. A
/// data output is worth nothing and carries its bytes behind `OP_RETURN`; it
/// fails with `DataTooLarge` if one push cannot hold them. A tree output
/// pays to the hash of the script that commits to the nested template, and
/// fails as the nested template does.
pub open spec fn spec_txout(o: OutputView, network: Network) -> Result<TxOutView, CtvError>
    decreases o, 0int,
{
    match o {
        OutputView::Address { address, amount } => match spec_address_script(address, network) {
            Some(script) => Ok(TxOutView { value: amount, script_pubkey: script }),
            None => Err(CtvError::InvalidAddressForNetwork),
        },
        OutputView::Data { data } => if encode_utf8(data).len() < PUSH_LIMIT {
            Ok(
                TxOutView {
                    value: 0,
                    script_pubkey: seq![OP_RETURN] + push_data(encode_utf8(data)),
                },
            )
        } else {
            Err(CtvError::DataTooLarge)
        },
        OutputView::Tree { tree, amount } => match spec_template_hash(*tree) {
            Ok(hash) => Ok(
                TxOutView {
                    value: amount,
                    script_pubkey: spec_p2wsh_script(commitment_script(hash)),
                },
            ),
            Err(e) => Err(e),
        },
    }
}

/// What the first `n` outputs of a template materialize into, in order. The
/// failure of the first output that fails is the failure of them all.
pub open spec fn spec_txouts_upto(c: CtvView, n: nat) -> Result<Seq<TxOutView>, CtvError>
    decreases c, n,
{
    if n == 0 || n > c.outputs.len() {
        Ok(Seq::empty())
    } else {
        match spec_txouts_upto(c, (n - 1) as nat) {
            Err(e) => Err(e),
            Ok(before) => match spec_txout(c.outputs[n - 1], c.network) {
                Err(e) => Err(e),
                Ok(out) => Ok(before.push(out)),
            },
        }
    }
}

/// What the outputs of a template materialize into.
pub open spec fn spec_txouts(c: CtvView) -> Result<Seq<TxOutView>, CtvError>
    decreases c, c.outputs.len() + 1,
{
    spec_txouts_upto(c, c.outputs.len())
}

/// The transaction that a template materializes into: one unbound input for
/// each sequence number, and the outputs in order.
pub open spec fn spec_as_tx(c: CtvView) -> Result<TransactionView, CtvError>
    decreases c, c.outputs.len() + 2,
{
    match spec_txouts(c) {
        Err(e) => Err(e),
        Ok(output) => Ok(
            TransactionView {
                version: c.version,
                lock_time: c.locktime,
                input: template_inputs(c.sequences),
                output,
            },
        ),
    }
}

/// The template hash of a template: that of the transaction it materializes
/// into, for a spend at input 0.
pub open spec fn spec_template_hash(c: CtvView) -> Result<Seq<u8>, CtvError>
    decreases c, c.outputs.len() + 3,
{
    match spec_as_tx(c) {
        Err(e) => Err(e),
        Ok(tx) => Ok(spec_ctv(tx, 0)),
    }
}

/// The witness that spends an output locked to the template hash `hash`: the
/// committing script itself, as the only item.
pub open spec fn spending_witness(hash: Seq<u8>) -> Seq<Seq<u8>> {
    seq![commitment_script(hash)]
}

/// The witness that spends an output locked to a template; it fails as the
/// template's hash does.
pub open spec fn spec_witness(c: CtvView) -> Result<Seq<Seq<u8>>, CtvError> {
    match spec_template_hash(c) {
        Err(e) => Err(e),
        Ok(hash) => Ok(spending_witness(hash)),
    }
}

/// Whether a transaction spends, through a single input, an output locked
/// to a template hash: its witness is one item of 34 bytes, the script that
/// commits to a hash of 32 bytes. Such a transaction can be encoded.
pub open spec fn spends_with_committing_script(tx: TransactionView) -> bool {
    &&& tx.input.len() == 1
    &&& tx.input[0].witness.len() == 1
    &&& tx.input[0].witness[0].len() == 34
    &&& witnesses_fit(tx)
}

/// The transaction that spends the outpoint `(txid, vout)` as a template
/// prescribes: its only input spends that outpoint with the template's first
/// sequence number, no unlocking script and the committing script as witness;
/// its outputs are those of the template. Fails with `MissingSequence` if the
/// template has no sequence number, and otherwise as the template's outputs
/// do.
#[verifier::opaque]
pub open spec fn spec_spending_head(c: CtvView, txid: Seq<u8>, vout: u32) -> Result<
    TransactionView,
    CtvError,
> {
    if c.sequences.len() == 0 {
        Err(CtvError::MissingSequence)
    } else {
        match spec_as_tx(c) {
            Err(e) => Err(e),
            Ok(tx) => Ok(
                TransactionView {
                    version: c.version,
                    lock_time: c.locktime,
                    input: seq![
                        TxInView {
                            previous_output: OutPointView { txid, vout },
                            script_sig: Seq::empty(),
                            sequence: c.sequences[0],
                            witness: spending_witness(spec_ctv(tx, 0)),
                        },
                    ],
                    output: tx.output,
                },
            ),
        }
    }
}

/// The template nested in the first output of a template, if that output is
/// a tree.
pub open spec fn nested_template(c: CtvView) -> Option<CtvView> {
    if c.outputs.len() > 0 {
        match c.outputs[0] {
            OutputView::Tree { tree, .. } => Some(*tree),
            _ => None,
        }
    } else {
        None
    }
}

/// The chain of transactions that realizes a template from the outpoint
/// `(txid, vout)` on: the transaction that spends the outpoint, followed, if
/// the first output nests a template, by the chain that realizes the nested
/// template from output 0 of that transaction on. Trees in other outputs are
/// not followed. The first failure on the way is the failure of the chain.
pub open spec fn spec_spending_tx(c: CtvView, txid: Seq<u8>, vout: u32) -> Result<
    Seq<TransactionView>,
    CtvError,
>
    decreases c,
{
    match spec_spending_head(c, txid, vout) {
        Err(e) => Err(e),
        Ok(tx) => match nested_template(c) {
            None => Ok(seq![tx]),
            Some(nested) => match spec_spending_tx(nested, spec_txid(tx), 0) {
                Err(e) => Err(e),
                Ok(rest) => Ok(seq![tx] + rest),
            },
        },
    }
}

/// Once a prefix of the outputs fails, every longer prefix fails in the
/// same way.
proof fn lemma_txouts_failure_stays(c: CtvView, n: nat, m: nat)
    requires
        n <= m <= c.outputs.len(),
        spec_txouts_upto(c, n) is Err,
    ensures
        spec_txouts_upto(c, m) == spec_txouts_upto(c, n),
    decreases m,
{
    if m > n {
        lemma_txouts_failure_stays(c, n, (m - 1) as nat);
    }
}

impl Output {
    /// Materializes this output of a template on `network`.
    pub fn as_txout(&self, network: Network) -> (out: Result<TxOut, CtvError>)
        ensures
            txout_result(out) == spec_txout(self@, network),
        decreases self, 0int,
    {
        match self {
            Output::Address { address, amount } => {
                match address_script(address.as_str(), network) {
                    Some(script_pubkey) => Ok(TxOut { value: *amount, script_pubkey }),
                    None => Err(CtvError::InvalidAddressForNetwork),
                }
            },
            Output::Data { data } => {
                match op_return_script(data.as_str().as_bytes()) {
                    Some(script_pubkey) => Ok(TxOut { value: 0, script_pubkey }),
                    None => Err(CtvError::DataTooLarge),
                }
            },
            Output::Tree { tree, amount } => {
                match tree.ctv() {
                    Err(e) => Err(e),
                    Ok(tmplhash) => match locking_script(&tmplhash) {
                        Err(e) => Err(e),
                        Ok(script) => Ok(
                            TxOut { value: *amount, script_pubkey: p2wsh_script(&script) },
                        ),
                    },
                }
            },
        }
    }
}

impl Ctv {
    /// Materializes this template: one input for each sequence number, bound
    /// to no outpoint yet, and the outputs in order. Fails as the first
    /// output that fails.
    pub fn as_tx(&self) -> (tx: Result<Transaction, CtvError>)
        ensures
            tx_result(tx) == spec_as_tx(self@),
        decreases self, self.outputs@.len() + 2,
    {
        let mut input: Vec<TxIn> = Vec::new();
        let mut i: usize = 0;
        while i < self.sequences.len()
            invariant
                i <= self.sequences.len(),
                input@.len() == i,
                forall|j: int|
                    0 <= j < i ==> (#[trigger] input@[j])@ == template_input(self.sequences@[j]),
            decreases self.sequences.len() - i,
        {
            let txin = TxIn {
                previous_output: OutPoint::null(),
                script_sig: Vec::new(),
                sequence: self.sequences[i],
                witness: Vec::new(),
            };
            assert(txin@.witness =~= Seq::<Seq<u8>>::empty());
            input.push(txin);
            i += 1;
        }
        match self.txouts() {
            Err(e) => Err(e),
            Ok(output) => {
                let tx = Transaction {
                    version: self.version,
                    lock_time: self.locktime,
                    input,
                    output,
                };
                assert(tx@.input =~= template_inputs(self@.sequences));
                Ok(tx)
            },
        }
    }

    /// Materializes the outputs of this template, in order. Fails as the
    /// first output that fails.
    pub fn txouts(&self) -> (outs: Result<Vec<TxOut>, CtvError>)
        ensures
            txouts_result(outs) == spec_txouts(self@),
        decreases self, self.outputs@.len() + 1,
    {
        let mut outs: Vec<TxOut> = Vec::new();
        let mut i: usize = 0;
        assert(outputs_view(outs@) =~= Seq::<TxOutView>::empty());
        while i < self.outputs.len()
            invariant
                i <= self.outputs.len(),
                spec_txouts_upto(self@, i as nat) == Ok::<Seq<TxOutView>, CtvError>(
                    outputs_view(outs@),
                ),
                outs@.len() == i,
            decreases self.outputs.len() - i,
        {
            assert(self@.outputs[i as int] == self.outputs@[i as int]@);
            match self.outputs[i].as_txout(self.network) {
                Err(e) => {
                    proof {
                        lemma_txouts_failure_stays(
                            self@,
                            (i + 1) as nat,
                            self@.outputs.len(),
                        );
                    }
                    return Err(e);
                },
                Ok(out) => {
                    let ghost before = outputs_view(outs@);
                    outs.push(out);
                    assert(outputs_view(outs@) =~= before.push(out@));
                },
            }
            i += 1;
        }
        Ok(outs)
    }

    /// Expands this template into the chain of transactions that realizes
    /// it, starting with the one that spends output `vout` of the
    /// transaction `txid`.
    pub fn spending_tx(&self, txid: [u8; 32], vout: u32) -> (chain: Result<
        Vec<Transaction>,
        CtvError,
    >)
        ensures
            chain_result(chain) == spec_spending_tx(self@, txid@, vout),
            chain matches Ok(txs) ==> forall|i: int|
                0 <= i < txs@.len() ==> spends_with_committing_script((#[trigger] txs@[i])@),
        decreases self,
    {
        let tx = match self.spending_head(txid, vout) {
            Err(e) => {
                return Err(e);
            },
            Ok(tx) => tx,
        };
        let current_txid = tx.compute_txid();
        let ghost first = tx@;
        let mut transactions: Vec<Transaction> = Vec::new();
        transactions.push(tx);
        assert(chain_view(transactions@) =~= seq![first]);
        assert(transactions@[0]@ == first);
        if self.outputs.len() > 0 {
            assert(self@.outputs[0] == self.outputs@[0]@);
            match &self.outputs[0] {
                Output::Tree { tree, amount: _ } => {
                    match tree.spending_tx(current_txid, 0) {
                        Err(e) => {
                            return Err(e);
                        },
                        Ok(mut rest) => {
                            let ghost tail = chain_view(rest@);
                            let ghost nested = rest@;
                            transactions.append(&mut rest);
                            assert(chain_view(transactions@) =~= seq![first] + tail);
                            assert forall|i: int| 0 <= i < transactions@.len() implies
                                spends_with_committing_script((#[trigger] transactions@[i])@) by {
                                if i > 0 {
                                    assert(transactions@[i] == nested[i - 1]);
                                }
                            }
                        },
                    }
                },
                _ => {},
            }
        }
        Ok(transactions)
    }

    /// Builds the transaction that spends output `vout` of the transaction
    /// `txid` as this template prescribes.
    fn spending_head(&self, txid: [u8; 32], vout: u32) -> (head: Result<Transaction, CtvError>)
        ensures
            tx_result(head) == spec_spending_head(self@, txid@, vout),
            head matches Ok(tx) ==> spends_with_committing_script(tx@),
    {
        proof {
            reveal(spec_spending_head);
        }
        if self.sequences.len() == 0 {
            return Err(CtvError::MissingSequence);
        }
        let witness = match self.witness() {
            Err(e) => {
                return Err(e);
            },
            Ok(witness) => witness,
        };
        let output = match self.txouts() {
            Err(e) => {
                return Err(e);
            },
            Ok(output) => output,
        };
        let txin = TxIn {
            previous_output: OutPoint { txid, vout },
            script_sig: Vec::new(),
            sequence: self.sequences[0],
            witness,
        };
        let mut input: Vec<TxIn> = Vec::new();
        input.push(txin);
        let tx = Transaction { version: self.version, lock_time: self.locktime, input, output };
        proof {
            let head = spec_spending_head(self@, txid@, vout);
            assert(head is Ok);
            assert(tx@.input =~= head->Ok_0.input);
            assert(tx@ == head->Ok_0);
            assert(tx@.input[0].witness[0].len() == 34);
            lemma_single_small_witness_fits(tx@);
        }
        Ok(tx)
    }

    /// The witness that spends an output locked to this template.
    fn witness(&self) -> (witness: Result<Vec<Vec<u8>>, CtvError>)
        ensures
            witness_result(witness) == spec_witness(self@),
            witness matches Ok(items) ==> items@.len() == 1 && items@[0]@.len() == 34,
    {
        match self.ctv() {
            Err(e) => Err(e),
            Ok(tmplhash) => match locking_script(&tmplhash) {
                Err(e) => Err(e),
                Ok(script) => {
                    let mut witness: Vec<Vec<u8>> = Vec::new();
                    witness.push(script);
                    assert(witness_view(witness@) =~= spending_witness(tmplhash@));
                    Ok(witness)
                },
            },
        }
    }

    /// Computes the template hash that commits to this template.
    pub fn ctv(&self) -> (hash: Result<Vec<u8>, CtvError>)
        ensures
            bytes_result(hash) == spec_template_hash(self@),
            hash matches Ok(bytes) ==> bytes@.len() == 32,
        decreases self, self.outputs@.len() + 3,
    {
        match self.as_tx() {
            Err(e) => Err(e),
            Ok(tx) => Ok(util::ctv(&tx, 0)),
        }
    }
}

/// The pattern that matches an opcode name.
pub const OPCODE_PATTERN: &'static str = "(OP_\\w+)";

/// The pattern that matches 64 digits or lower-case letters in a row, as a
/// hash written in hexadecimal is.
pub const HASH_PATTERN: &'static str = "([0-9a-z]{64})";

/// What an opcode name is replaced by: the name in red.
pub const OPCODE_MARKUP: &'static str = "<span style=\"color: red\">$1</span>";

/// What a hash is replaced by: the hash in green.
pub const HASH_MARKUP: &'static str = "<span style=\"color: green\">$1</span>";

/// A text with the matches of a pattern replaced, or the text itself if the
/// pattern is no regular expression.
pub open spec fn painted(pattern: Seq<char>, text: Seq<char>, markup: Seq<char>) -> Seq<char> {
    match spec_regex_replace_all(pattern, text, markup) {
        Some(out) => out,
        None => text,
    }
}

/// What [`colorize`] returns: opcode names in red, then hashes in green,
/// then `OP_NOP4` under the name `OP_CTV`.
pub open spec fn spec_colorize(script: Seq<char>) -> Seq<char> {
    spec_str_replace(
        painted(HASH_PATTERN@, painted(OPCODE_PATTERN@, script, OPCODE_MARKUP@), HASH_MARKUP@),
        "OP_NOP4"@,
        "OP_CTV"@,
    )
}

/// Marks up a script written as text for display: opcode names become red,
/// hashes green, and the opcode of the template check is shown under its
/// own name.
pub fn colorize(script: &str) -> (html: String)
    ensures
        html@ == spec_colorize(script@),
{
    let red = match regex_replace_all(OPCODE_PATTERN, script, OPCODE_MARKUP) {
        Some(out) => out,
        None => script.to_owned(),
    };
    let green = match regex_replace_all(HASH_PATTERN, red.as_str(), HASH_MARKUP) {
        Some(out) => out,
        None => red,
    };
    str_replace(green.as_str(), "OP_NOP4", "OP_CTV")
}

/// Copies a template, nested templates included.
fn copy_ctv(c: &Ctv) -> (copy: Ctv)
    ensures
        copy@ == c@,
    decreases c,
{
    let mut outputs: Vec<Output> = Vec::new();
    let mut i: usize = 0;
    while i < c.outputs.len()
        invariant
            i <= c.outputs.len(),
            outputs@.len() == i,
            forall|j: int| 0 <= j < i ==> (#[trigger] outputs@[j])@ == c.outputs@[j]@,
        decreases c.outputs.len() - i,
    {
        let output = copy_output(&c.outputs[i]);
        outputs.push(output);
        i += 1;
    }
    let copy = Ctv {
        network: c.network,
        version: c.version,
        locktime: c.locktime,
        sequences: c.sequences.clone(),
        outputs,
    };
    assert(copy@.outputs =~= c@.outputs);
    assert(copy@.sequences =~= c@.sequences);
    copy
}

/// Copies an output, nested templates included.
fn copy_output(o: &Output) -> (copy: Output)
    ensures
        copy@ == o@,
    decreases o,
{
    match o {
        Output::Address { address, amount } => Output::Address {
            address: address.clone(),
            amount: *amount,
        },
        Output::Data { data } => Output::Data { data: data.clone() },
        Output::Tree { tree, amount } => Output::Tree {
            tree: Box::new(copy_ctv(tree)),
            amount: *amount,
        },
    }
}

impl Clone for Ctv {
    fn clone(&self) -> (copy: Ctv)
        ensures
            copy@ == self@,
    {
        copy_ctv(self)
    }
}

impl Clone for Output {
    fn clone(&self) -> (copy: Output)
        ensures
            copy@ == self@,
    {
        copy_output(self)
    }
}

} // verus!
