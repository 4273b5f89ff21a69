//! What holds of every template and of every chain built from one.

use crate::ctv::util::{
    ctv_preimage_without_script_sigs, has_script_sigs, lemma_empty_script_sigs_leave_no_segment,
    spec_sha256,
};
use crate::ctv::{
    nested_template, spec_as_tx, spec_spending_head, spec_spending_tx, spec_template_hash,
    spec_txout, spec_txouts_upto, Ctv, CtvView,
};
use crate::error::CtvError;
use crate::transaction::{spec_txid, OutPointView, TransactionView, TxOutView};
use vstd::prelude::*;

verus! {

/// The number of templates on the path that follows first outputs: one for
/// the template itself, and one for each template nested below it.
pub open spec fn depth(c: CtvView) -> nat
    decreases c,
{
    match nested_template(c) {
        Some(nested) => 1 + depth(nested),
        None => 1,
    }
}

/// The template `i` steps down the path that follows first outputs, or the
/// last one on the path if it is shorter.
pub open spec fn template_at(c: CtvView, i: nat) -> CtvView
    decreases i,
{
    if i == 0 {
        c
    } else {
        match nested_template(c) {
            Some(nested) => template_at(nested, (i - 1) as nat),
            None => c,
        }
    }
}

/// Whether a chain can be built from a template: the template materializes,
/// and it and every template nested below it along first outputs has a
/// sequence number to spend with.
pub open spec fn chain_ready(c: CtvView) -> bool
    decreases c,
{
    &&& c.sequences.len() > 0
    &&& spec_as_tx(c) is Ok
    &&& (nested_template(c) matches Some(nested) ==> chain_ready(nested))
}

/// The last template on the path that follows first outputs.
pub open spec fn deepest(c: CtvView) -> CtvView
    decreases c,
{
    match nested_template(c) {
        Some(nested) => deepest(nested),
        None => c,
    }
}

/// Whether the transactions of a chain spend one another in turn: the first
/// spends the outpoint `(txid, vout)`, and every later one spends output 0 of
/// the transaction before it, each through a single input.
pub open spec fn spends_in_turn(chain: Seq<TransactionView>, txid: Seq<u8>, vout: u32) -> bool {
    &&& chain.len() > 0
    &&& chain[0].input.len() == 1
    &&& chain[0].input[0].previous_output == OutPointView { txid, vout }
    &&& forall|i: int|
        0 < i < chain.len() ==> {
            &&& (#[trigger] chain[i]).input.len() == 1
            &&& chain[i].input[0].previous_output == OutPointView {
                txid: spec_txid(chain[i - 1]),
                vout: 0,
            }
        }
}

/// The transaction that spends an outpoint as a template prescribes has one
/// input, which spends that outpoint, and the outputs that the template
/// materializes into.
proof fn lemma_spending_head(c: CtvView, txid: Seq<u8>, vout: u32)
    ensures
        spec_spending_head(c, txid, vout) matches Ok(head) ==> {
            &&& head.input.len() == 1
            &&& head.input[0].previous_output == OutPointView { txid, vout }
            &&& spec_as_tx(c) matches Ok(tx) && tx.output == head.output
        },
{
    reveal(spec_spending_head);
}

/// A chain is its first transaction, followed by the chain of the template
/// nested in the first output, if there is one.
proof fn lemma_chain_unfolds(c: CtvView, txid: Seq<u8>, vout: u32)
    requires
        spec_spending_tx(c, txid, vout) is Ok,
    ensures
        spec_spending_head(c, txid, vout) is Ok,
        ({
            let head = spec_spending_head(c, txid, vout)->Ok_0;
            let chain = spec_spending_tx(c, txid, vout)->Ok_0;
            match nested_template(c) {
                Some(nested) => {
                    let rest = spec_spending_tx(nested, spec_txid(head), 0);
                    rest is Ok && chain == seq![head] + rest->Ok_0
                },
                None => chain == seq![head],
            }
        }),
{
}

/// A chain that spends in turn from output 0 of `head` on, put behind
/// `head`, spends in turn from the outpoint that `head` spends.
proof fn lemma_spends_in_turn_extends(
    head: TransactionView,
    rest: Seq<TransactionView>,
    txid: Seq<u8>,
    vout: u32,
)
    requires
        head.input.len() == 1,
        head.input[0].previous_output == (OutPointView { txid, vout }),
        spends_in_turn(rest, spec_txid(head), 0),
    ensures
        spends_in_turn(seq![head] + rest, txid, vout),
{
    let chain = seq![head] + rest;
    assert(chain[0] == head);
    assert forall|i: int| 0 < i < chain.len() implies {
        &&& (#[trigger] chain[i]).input.len() == 1
        &&& chain[i].input[0].previous_output == OutPointView {
            txid: spec_txid(chain[i - 1]),
            vout: 0,
        }
    } by {
        assert(chain[i] == rest[i - 1]);
        if i > 1 {
            assert(chain[i - 1] == rest[i - 2]);
        }
    }
}

/// A chain that realizes a template holds one transaction for each template
/// on the path that follows first outputs. Its transactions spend one
/// another in turn, starting from the outpoint the chain was asked for, and
/// the outputs of the last transaction are those that the deepest template
/// materializes into.
pub proof fn lemma_chain_continuity(c: CtvView, txid: Seq<u8>, vout: u32)
    ensures
        spec_spending_tx(c, txid, vout) matches Ok(chain) ==> {
            &&& chain.len() == depth(c)
            &&& spends_in_turn(chain, txid, vout)
            &&& spec_as_tx(deepest(c)) matches Ok(tx) && tx.output == chain.last().output
        },
    decreases c,
{
    lemma_spending_head(c, txid, vout);
    if let Ok(chain) = spec_spending_tx(c, txid, vout) {
        lemma_chain_unfolds(c, txid, vout);
        let head = spec_spending_head(c, txid, vout)->Ok_0;
        if let Some(nested) = nested_template(c) {
            lemma_chain_continuity(nested, spec_txid(head), 0);
            let rest = spec_spending_tx(nested, spec_txid(head), 0)->Ok_0;
            lemma_spends_in_turn_extends(head, rest, txid, vout);
            assert(chain.last() == rest.last());
        }
    }
}

/// Every transaction of a chain is the one that its level's template
/// prescribes: transaction `i` spends, as the template `i` steps down the
/// path prescribes, the outpoint the chain was asked for if it is the first,
/// and output 0 of the transaction before it otherwise.
pub proof fn lemma_chain_levels(c: CtvView, txid: Seq<u8>, vout: u32, i: nat)
    requires
        spec_spending_tx(c, txid, vout) is Ok,
        i < depth(c),
    ensures
        ({
            let chain = spec_spending_tx(c, txid, vout)->Ok_0;
            if i == 0 {
                spec_spending_head(c, txid, vout) == Ok::<TransactionView, CtvError>(chain[0])
            } else {
                spec_spending_head(template_at(c, i), spec_txid(chain[i - 1]), 0) == Ok::<
                    TransactionView,
                    CtvError,
                >(chain[i as int])
            }
        }),
    decreases i,
{
    lemma_chain_unfolds(c, txid, vout);
    let chain = spec_spending_tx(c, txid, vout)->Ok_0;
    let head = spec_spending_head(c, txid, vout)->Ok_0;
    if let Some(nested) = nested_template(c) {
        let rest = spec_spending_tx(nested, spec_txid(head), 0)->Ok_0;
        assert(chain[0] == head);
        if i > 0 {
            lemma_chain_levels(nested, spec_txid(head), 0, (i - 1) as nat);
            lemma_chain_continuity(nested, spec_txid(head), 0);
            assert(rest.len() == depth(nested));
            assert(chain[i as int] == rest[i - 1]);
            assert(template_at(c, i) == template_at(nested, (i - 1) as nat));
            if i > 1 {
                assert(chain[i - 1] == rest[i - 2]);
            }
        }
    }
}

/// A chain is built exactly from the templates that are ready for it,
/// whatever the outpoint it starts from.
pub proof fn lemma_chain_succeeds_exactly_when_ready(c: CtvView, txid: Seq<u8>, vout: u32)
    ensures
        spec_spending_tx(c, txid, vout) is Ok <==> chain_ready(c),
    decreases c,
{
    reveal(spec_spending_head);
    if let Ok(head) = spec_spending_head(c, txid, vout) {
        if let Some(nested) = nested_template(c) {
            lemma_chain_succeeds_exactly_when_ready(nested, spec_txid(head), 0);
        }
    }
}

/// The outputs of a template materialize all or not at all. Where they do,
/// each stands at the place of the output it comes from; where they do not,
/// the failure is that of the first output that fails.
pub proof fn lemma_txouts_all_or_first_failure(c: CtvView, n: nat)
    requires
        n <= c.outputs.len(),
    ensures
        match spec_txouts_upto(c, n) {
            Ok(outs) => {
                &&& outs.len() == n
                &&& forall|i: int|
                    0 <= i < n ==> spec_txout(#[trigger] c.outputs[i], c.network) == Ok::<
                        TxOutView,
                        CtvError,
                    >(outs[i])
            },
            Err(e) => exists|k: int|
                {
                    &&& 0 <= k < n
                    &&& spec_txout(#[trigger] c.outputs[k], c.network) == Err::<
                        TxOutView,
                        CtvError,
                    >(e)
                    &&& forall|j: int|
                        0 <= j < k ==> spec_txout(#[trigger] c.outputs[j], c.network) is Ok
                },
        },
    decreases n,
{
    if n > 0 {
        lemma_txouts_all_or_first_failure(c, (n - 1) as nat);
        match spec_txouts_upto(c, (n - 1) as nat) {
            Ok(before) => {
                match spec_txout(c.outputs[n - 1], c.network) {
                    Ok(out) => {},
                    Err(e) => {
                        let k = n - 1;
                        assert(spec_txout(c.outputs[k], c.network) == Err::<TxOutView, CtvError>(
                            e,
                        ));
                    },
                }
            },
            Err(e) => {
                let k = choose|k: int|
                    {
                        &&& 0 <= k < n - 1
                        &&& spec_txout(#[trigger] c.outputs[k], c.network) == Err::<
                            TxOutView,
                            CtvError,
                        >(e)
                        &&& forall|j: int|
                            0 <= j < k ==> spec_txout(#[trigger] c.outputs[j], c.network) is Ok
                    };
                assert(0 <= k < n);
            },
        }
    }
}

/// What a template materializes into, and the hash that commits to it,
/// depend on the template's value alone: templates of equal value, built at
/// any time and in any process, materialize and hash alike.
pub proof fn lemma_template_hash_is_deterministic(a: Ctv, b: Ctv)
    requires
        a@ == b@,
    ensures
        spec_as_tx(a@) == spec_as_tx(b@),
        spec_template_hash(a@) == spec_template_hash(b@),
{
}

/// A template materializes into a transaction without unlocking scripts, so
/// its template hash is the digest of a message that holds no segment for
/// them.
pub proof fn lemma_template_hash_skips_script_sigs(c: CtvView)
    ensures
        spec_as_tx(c) matches Ok(tx) ==> {
            &&& !has_script_sigs(tx.input)
            &&& spec_template_hash(c) == Ok::<Seq<u8>, CtvError>(
                spec_sha256(ctv_preimage_without_script_sigs(tx, 0)),
            )
        },
{
    if let Ok(tx) = spec_as_tx(c) {
        lemma_empty_script_sigs_leave_no_segment(tx, 0);
    }
}

} // verus!
