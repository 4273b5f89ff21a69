//! A vault: funds that can move to a hot address after a delay, and to a
//! cold address at any time.

use crate::ctv::segwit::{
    delay_sequence, leaf_ctv, locking_address, sequence_for_delay, spec_cold_hash, spec_hot_hash,
    spec_leaf_ctv, spec_vault_locking_script, vault_locking_script, vault_script, VAULT_FEE,
};
use crate::ctv::laws::{depth, lemma_chain_continuity};
use crate::ctv::util::{
    lemma_bytes_of_single_input_and_output, outputs_bytes, sequences_bytes,
};
use crate::ctv::{
    ctv_result, spec_as_tx, spec_spending_tx, spec_template_hash, spec_txouts_upto, Ctv, CtvView,
    Output, OutputView,
};
use crate::encoding::{
    lemma_u32_le_injective, lemma_u64_le_injective, lemma_var_bytes_injective, u32_le, u64_le,
    var_bytes,
};
use crate::error::CtvError;
use crate::network::Network;
use crate::script::{spec_address_script, spec_locking_address};
use crate::transaction::TxOutView;
use vstd::prelude::*;

verus! {

/// The parameters of a vault. Everything else about the vault is derived
/// from them, anew each time it is asked for.
#[derive(Clone, Debug, PartialEq, Eq)]
pub struct Vault {
    /// The address that the funds reach after the delay.
    pub hot: String,
    /// The address that the funds can reach at any time.
    pub cold: String,
    /// The amount held, in satoshis.
    pub amount: u64,
    /// The number of blocks to wait before the funds can move to `hot`.
    pub delay: u16,
    /// The network of both addresses.
    pub network: Network,
}

/// The mathematical value of a [`Vault`].
pub struct VaultView {
    pub hot: Seq<char>,
    pub cold: Seq<char>,
    pub amount: u64,
    pub delay: u16,
    pub network: Network,
}

impl View for Vault {
    type V = VaultView;

    open spec fn view(&self) -> VaultView {
        VaultView {
            hot: self.hot@,
            cold: self.cold@,
            amount: self.amount,
            delay: self.delay,
            network: self.network,
        }
    }
}

/// The mathematical value of a result that holds text.
pub open spec fn text_result(r: Result<String, CtvError>) -> Result<Seq<char>, CtvError> {
    match r {
        Ok(text) => Ok(text@),
        Err(e) => Err(e),
    }
}

/// The template of the hot branch of a vault: it moves the funds, less the
/// fee, to the hot address, in a transaction whose input carries the
/// sequence number for the vault's delay.
pub open spec fn spec_hot_ctv(v: VaultView) -> Result<CtvView, CtvError> {
    spec_leaf_ctv(v.hot, v.network, v.amount, delay_sequence(v.delay))
}

/// The template of the cold branch of a vault: it moves the funds, less the
/// fee, to the cold address, in a transaction whose input carries sequence
/// number 0.
pub open spec fn spec_cold_ctv(v: VaultView) -> Result<CtvView, CtvError> {
    spec_leaf_ctv(v.cold, v.network, v.amount, 0)
}

/// The address that funds a vault: the one that pays to the hash of the
/// vault's two-branch script.
pub open spec fn spec_vault_address(v: VaultView) -> Result<Seq<char>, CtvError> {
    match spec_vault_locking_script(v.delay, v.cold, v.hot, v.network, v.amount) {
        Err(e) => Err(e),
        Ok(script) => Ok(spec_locking_address(script, v.network)),
    }
}

/// The template that pays the whole amount of a vault to the vault's own
/// address in one output, from one input with sequence number 0, at version
/// 1 and lock time 0.
pub open spec fn spec_vault_ctv(v: VaultView) -> Result<CtvView, CtvError> {
    match spec_vault_address(v) {
        Err(e) => Err(e),
        Ok(address) => Ok(
            CtvView {
                network: v.network,
                version: 1,
                locktime: 0,
                sequences: seq![0u32],
                outputs: seq![OutputView::Address { address, amount: v.amount }],
            },
        ),
    }
}

/// A vault that holds more than the fee pays out, on either branch, exactly
/// what it holds less 600 satoshis, in one output to the branch's address.
/// A vault that holds no more than that yields nothing: neither a branch
/// template, nor an address, nor the template that pays into it.
pub proof fn lemma_fee_accounting(v: VaultView)
    ensures
        v.amount > 600 ==> {
            &&& spec_hot_ctv(v) matches Ok(hot) && hot.outputs == seq![
                OutputView::Address { address: v.hot, amount: (v.amount - 600) as u64 },
            ]
            &&& spec_cold_ctv(v) matches Ok(cold) && cold.outputs == seq![
                OutputView::Address { address: v.cold, amount: (v.amount - 600) as u64 },
            ]
        },
        v.amount <= 600 ==> {
            &&& spec_hot_ctv(v) == Err::<CtvView, CtvError>(CtvError::AmountTooSmall)
            &&& spec_cold_ctv(v) == Err::<CtvView, CtvError>(CtvError::AmountTooSmall)
            &&& spec_vault_address(v) == Err::<Seq<char>, CtvError>(CtvError::AmountTooSmall)
            &&& spec_vault_ctv(v) == Err::<CtvView, CtvError>(CtvError::AmountTooSmall)
        },
{
}

/// Everything derived from a vault depends on the value of its five fields
/// alone: two vaults of equal value, such as one and what was read back from
/// its written form, have the same address, the same branch templates and
/// the same template paying into the vault.
pub proof fn lemma_equal_vaults_derive_alike(a: Vault, b: Vault)
    requires
        a@ == b@,
    ensures
        spec_vault_address(a@) == spec_vault_address(b@),
        spec_vault_ctv(a@) == spec_vault_ctv(b@),
        spec_hot_ctv(a@) == spec_hot_ctv(b@),
        spec_cold_ctv(a@) == spec_cold_ctv(b@),
{
}

/// None of the three templates of a vault nests another, so the chain built
/// from any of them, where it can be built, is a single transaction.
pub proof fn lemma_vault_chains_are_single(v: VaultView, txid: Seq<u8>, vout: u32)
    ensures
        spec_hot_ctv(v) matches Ok(hot) ==> depth(hot) == 1 && (spec_spending_tx(hot, txid, vout)
            matches Ok(chain) ==> chain.len() == 1),
        spec_cold_ctv(v) matches Ok(cold) ==> depth(cold) == 1 && (spec_spending_tx(
            cold,
            txid,
            vout,
        ) matches Ok(chain) ==> chain.len() == 1),
        spec_vault_ctv(v) matches Ok(unvault) ==> depth(unvault) == 1 && (spec_spending_tx(
            unvault,
            txid,
            vout,
        ) matches Ok(chain) ==> chain.len() == 1),
{
    if let Ok(hot) = spec_hot_ctv(v) {
        lemma_chain_continuity(hot, txid, vout);
    }
    if let Ok(cold) = spec_cold_ctv(v) {
        lemma_chain_continuity(cold, txid, vout);
    }
    if let Ok(unvault) = spec_vault_ctv(v) {
        lemma_chain_continuity(unvault, txid, vout);
    }
}

/// What a leaf template materializes into, where its address is one of the
/// vault's network: a transaction with one input, which carries the leaf's
/// sequence number, and one output, which pays the amount less the fee to the
/// address's locking script.
proof fn lemma_leaf_transaction(address: Seq<char>, network: Network, amount: u64, sequence: u32)
    requires
        amount > VAULT_FEE,
        spec_address_script(address, network) is Some,
    ensures
        spec_leaf_ctv(address, network, amount, sequence) is Ok,
        spec_as_tx(spec_leaf_ctv(address, network, amount, sequence)->Ok_0) matches Ok(tx) && {
            &&& tx.input.len() == 1
            &&& tx.input[0].sequence == sequence
            &&& tx.output == seq![
                TxOutView {
                    value: (amount - VAULT_FEE) as u64,
                    script_pubkey: spec_address_script(address, network)->Some_0,
                },
            ]
            &&& sequences_bytes(tx.input) == u32_le(sequence)
            &&& outputs_bytes(tx.output) == u64_le((amount - VAULT_FEE) as u64) + var_bytes(
                spec_address_script(address, network)->Some_0,
            )
        },
{
    let c = spec_leaf_ctv(address, network, amount, sequence)->Ok_0;
    assert(spec_txouts_upto(c, 0) == Ok::<Seq<TxOutView>, CtvError>(Seq::empty()));
    let out = TxOutView {
        value: (amount - VAULT_FEE) as u64,
        script_pubkey: spec_address_script(address, network)->Some_0,
    };
    assert(spec_txouts_upto(c, 1) == Ok::<Seq<TxOutView>, CtvError>(
        Seq::<TxOutView>::empty().push(out),
    ));
    assert(Seq::<TxOutView>::empty().push(out) =~= seq![out]);
    let tx = spec_as_tx(c)->Ok_0;
    assert(tx.output == seq![out]);
    assert(tx.input.len() == 1 && tx.input[0].sequence == sequence);
    lemma_bytes_of_single_input_and_output(tx.input, tx.output);
}

/// The script of a vault commits, in the branch behind the lock time, to the
/// hot template, whose only input carries the sequence number for the
/// vault's delay, and in the other branch to the cold template, whose only
/// input carries sequence number 0.
pub proof fn lemma_script_commits_to_branch_templates(v: VaultView)
    ensures
        spec_vault_locking_script(v.delay, v.cold, v.hot, v.network, v.amount) matches Ok(
            script,
        ) ==> {
            &&& spec_hot_ctv(v) is Ok
            &&& spec_cold_ctv(v) is Ok
            &&& spec_hot_ctv(v)->Ok_0.sequences == seq![v.delay as u32]
            &&& spec_cold_ctv(v)->Ok_0.sequences == seq![0u32]
            &&& spec_template_hash(spec_hot_ctv(v)->Ok_0) is Ok
            &&& spec_template_hash(spec_cold_ctv(v)->Ok_0) is Ok
            &&& script == vault_script(
                v.delay,
                spec_template_hash(spec_hot_ctv(v)->Ok_0)->Ok_0,
                spec_template_hash(spec_cold_ctv(v)->Ok_0)->Ok_0,
            )
        },
{
}

/// The two branches of a vault never commit to the same transaction where
/// the two addresses lock funds with different scripts: the transactions
/// differ, and so do the encoded outputs whose digest the template hash
/// covers.
pub proof fn lemma_branches_differ(v: VaultView)
    requires
        v.amount > VAULT_FEE,
        spec_address_script(v.hot, v.network) is Some,
        spec_address_script(v.cold, v.network) is Some,
        spec_address_script(v.hot, v.network) != spec_address_script(v.cold, v.network),
    ensures
        spec_hot_ctv(v) is Ok,
        spec_cold_ctv(v) is Ok,
        spec_hot_ctv(v) != spec_cold_ctv(v),
        spec_as_tx(spec_hot_ctv(v)->Ok_0) is Ok,
        spec_as_tx(spec_cold_ctv(v)->Ok_0) is Ok,
        spec_as_tx(spec_hot_ctv(v)->Ok_0) != spec_as_tx(spec_cold_ctv(v)->Ok_0),
        outputs_bytes(spec_as_tx(spec_hot_ctv(v)->Ok_0)->Ok_0.output) != outputs_bytes(
            spec_as_tx(spec_cold_ctv(v)->Ok_0)->Ok_0.output,
        ),
{
    lemma_leaf_transaction(v.hot, v.network, v.amount, delay_sequence(v.delay));
    lemma_leaf_transaction(v.cold, v.network, v.amount, 0);
    let hot_script = spec_address_script(v.hot, v.network)->Some_0;
    let cold_script = spec_address_script(v.cold, v.network)->Some_0;
    let hot_tx = spec_as_tx(spec_hot_ctv(v)->Ok_0)->Ok_0;
    let cold_tx = spec_as_tx(spec_cold_ctv(v)->Ok_0)->Ok_0;
    assert(hot_tx.output[0].script_pubkey == hot_script);
    assert(cold_tx.output[0].script_pubkey == cold_script);
    assert(spec_hot_ctv(v)->Ok_0.outputs[0] != spec_cold_ctv(v)->Ok_0.outputs[0]) by {
        if v.hot == v.cold {
            assert(hot_script == cold_script);
        }
    }
    let hot_bytes = outputs_bytes(hot_tx.output);
    let cold_bytes = outputs_bytes(cold_tx.output);
    if hot_bytes == cold_bytes {
        assert(var_bytes(hot_script) =~= hot_bytes.subrange(8, hot_bytes.len() as int));
        assert(var_bytes(cold_script) =~= cold_bytes.subrange(8, cold_bytes.len() as int));
        lemma_var_bytes_injective(hot_script, cold_script);
        assert(false);
    }
}

/// The two branches of a vault with a delay never commit to the same
/// transaction: the input of the one carries the sequence number for the
/// delay, that of the other 0, and so the encoded sequence numbers whose
/// digest the template hash covers differ.
pub proof fn lemma_delayed_branches_differ(v: VaultView)
    requires
        v.amount > VAULT_FEE,
        v.delay > 0,
        spec_address_script(v.hot, v.network) is Some,
        spec_address_script(v.cold, v.network) is Some,
    ensures
        spec_as_tx(spec_hot_ctv(v)->Ok_0) is Ok,
        spec_as_tx(spec_cold_ctv(v)->Ok_0) is Ok,
        spec_as_tx(spec_hot_ctv(v)->Ok_0) != spec_as_tx(spec_cold_ctv(v)->Ok_0),
        sequences_bytes(spec_as_tx(spec_hot_ctv(v)->Ok_0)->Ok_0.input) != sequences_bytes(
            spec_as_tx(spec_cold_ctv(v)->Ok_0)->Ok_0.input,
        ),
{
    lemma_leaf_transaction(v.hot, v.network, v.amount, delay_sequence(v.delay));
    lemma_leaf_transaction(v.cold, v.network, v.amount, 0);
    if u32_le(delay_sequence(v.delay)) == u32_le(0) {
        lemma_u32_le_injective(delay_sequence(v.delay), 0);
    }
}

/// Leaf templates for two different amounts never commit to the same
/// transaction: the templates differ, the transactions differ, and so do
/// the encoded outputs whose digest the template hash covers.
pub proof fn lemma_amounts_differ(
    address: Seq<char>,
    network: Network,
    first: u64,
    second: u64,
    sequence: u32,
)
    requires
        first > VAULT_FEE,
        second > VAULT_FEE,
        first != second,
        spec_address_script(address, network) is Some,
    ensures
        spec_leaf_ctv(address, network, first, sequence) != spec_leaf_ctv(
            address,
            network,
            second,
            sequence,
        ),
        spec_as_tx(spec_leaf_ctv(address, network, first, sequence)->Ok_0) is Ok,
        spec_as_tx(spec_leaf_ctv(address, network, second, sequence)->Ok_0) is Ok,
        spec_as_tx(spec_leaf_ctv(address, network, first, sequence)->Ok_0) != spec_as_tx(
            spec_leaf_ctv(address, network, second, sequence)->Ok_0,
        ),
        outputs_bytes(spec_as_tx(spec_leaf_ctv(address, network, first, sequence)->Ok_0)->Ok_0.output)
            != outputs_bytes(
            spec_as_tx(spec_leaf_ctv(address, network, second, sequence)->Ok_0)->Ok_0.output,
        ),
{
    lemma_leaf_transaction(address, network, first, sequence);
    lemma_leaf_transaction(address, network, second, sequence);
    let one = spec_as_tx(spec_leaf_ctv(address, network, first, sequence)->Ok_0)->Ok_0;
    let other = spec_as_tx(spec_leaf_ctv(address, network, second, sequence)->Ok_0)->Ok_0;
    assert(one.output[0].value != other.output[0].value);
    assert(spec_leaf_ctv(address, network, first, sequence)->Ok_0.outputs[0] != spec_leaf_ctv(
        address,
        network,
        second,
        sequence,
    )->Ok_0.outputs[0]);
    let one_bytes = outputs_bytes(one.output);
    let other_bytes = outputs_bytes(other.output);
    if one_bytes == other_bytes {
        assert(u64_le((first - VAULT_FEE) as u64) =~= one_bytes.subrange(0, 8));
        assert(u64_le((second - VAULT_FEE) as u64) =~= other_bytes.subrange(0, 8));
        lemma_u64_le_injective((first - VAULT_FEE) as u64, (second - VAULT_FEE) as u64);
        assert(false);
    }
}

impl Vault {
    /// Derives the template that moves the funds to the hot address.
    pub fn hot_ctv(&self) -> (ctv: Result<Ctv, CtvError>)
        ensures
            ctv_result(ctv) == spec_hot_ctv(self@),
    {
        leaf_ctv(self.hot.clone(), self.network, self.amount, sequence_for_delay(self.delay))
    }

    /// Derives the template that moves the funds to the cold address.
    pub fn cold_ctv(&self) -> (ctv: Result<Ctv, CtvError>)
        ensures
            ctv_result(ctv) == spec_cold_ctv(self@),
    {
        leaf_ctv(self.cold.clone(), self.network, self.amount, 0)
    }

    /// Derives the address that funds the vault.
    pub fn vault_address(&self) -> (address: Result<String, CtvError>)
        ensures
            text_result(address) == spec_vault_address(self@),
    {
        match vault_locking_script(
            self.delay,
            self.cold.clone(),
            self.hot.clone(),
            self.network,
            self.amount,
        ) {
            Err(e) => Err(e),
            Ok(script) => Ok(locking_address(&script, self.network)),
        }
    }

    /// Derives the template whose only output pays into the vault.
    pub fn vault_ctv(&self) -> (ctv: Result<Ctv, CtvError>)
        ensures
            ctv_result(ctv) == spec_vault_ctv(self@),
    {
        match self.vault_address() {
            Err(e) => Err(e),
            Ok(address) => {
                let mut sequences: Vec<u32> = Vec::new();
                sequences.push(0);
                let mut outputs: Vec<Output> = Vec::new();
                outputs.push(Output::Address { address, amount: self.amount });
                let ctv = Ctv {
                    network: self.network,
                    version: 1,
                    locktime: 0,
                    sequences,
                    outputs,
                };
                assert(ctv@.sequences =~= seq![0u32]);
                assert(ctv@.outputs =~= seq![
                    OutputView::Address { address: address@, amount: self.amount },
                ]);
                Ok(ctv)
            },
        }
    }
}

} // verus!
