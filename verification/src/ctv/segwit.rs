//! Witness scripts that commit to templates, and the addresses that pay to them.

use crate::ctv::{ctv_result, spec_template_hash, Ctv, CtvView, Output, OutputView};
use crate::error::{bytes_result, CtvError};
use crate::network::Network;
use crate::script::{
    push_data, push_height, push_opcode, push_sequence, push_slice, spec_locking_address, OP_CSV,
    OP_DROP, OP_ELSE, OP_ENDIF, OP_IF, OP_NOP4,
};
use vstd::prelude::*;

verus! {

/// The script that only a transaction with template hash `hash` satisfies:
/// a push of the hash, then the template check.
pub open spec fn commitment_script(hash: Seq<u8>) -> Seq<u8> {
    push_data(hash) + seq![OP_NOP4]
}

/// What [`locking_script`] returns for `hash`.
pub open spec fn spec_locking_script(hash: Seq<u8>) -> Result<Seq<u8>, CtvError> {
    if hash.len() == 32 {
        Ok(commitment_script(hash))
    } else {
        Err(CtvError::MalformedCommitment)
    }
}

/// Renders the address on `network` that pays to the hash of the witness
/// script `script`.
///
/// Calls `bitcoin::Address::p2wsh` and writes the address out with its
/// `Display`. The contract names the text, which depends on the script and
/// the network alone.
#[verifier::external_body]
pub fn locking_address(script: &Vec<u8>, network: Network) -> (address: String)
    ensures
        address@ == spec_locking_address(script@, network),
{
    let hrp = match network {
        Network::Bitcoin => bitcoin::Network::Bitcoin,
        Network::Testnet => bitcoin::Network::Testnet,
        Network::Testnet4 => bitcoin::Network::Testnet4,
        Network::Signet => bitcoin::Network::Signet,
        Network::Regtest => bitcoin::Network::Regtest,
    };
    bitcoin::Address::p2wsh(bitcoin::Script::from_bytes(script), hrp).to_string()
}

/// Builds the script that commits to the template hash `tmplhash`.
///
/// Fails with `MalformedCommitment` exactly when the hash is not 32 bytes
/// long.
pub fn locking_script(tmplhash: &Vec<u8>) -> (script: Result<Vec<u8>, CtvError>)
    ensures
        bytes_result(script) == spec_locking_script(tmplhash@),
{
    if tmplhash.len() != 32 {
        return Err(CtvError::MalformedCommitment);
    }
    match push_slice(Vec::new(), tmplhash) {
        Some(pushed) => {
            let script = push_opcode(pushed, OP_NOP4);
            assert(script@ =~= commitment_script(tmplhash@));
            Ok(script)
        },
        None => Err(CtvError::MalformedCommitment),
    }
}

/// The fee, in satoshis, that a vault leaves for the transaction that moves
/// its funds on.
pub const VAULT_FEE: u64 = 600;

/// The template that pays `amount`, less the fee, to `address` in one
/// output, from one input with sequence number `sequence`, at version 1 and
/// lock time 0; `AmountTooSmall` if the amount does not exceed the fee.
pub open spec fn spec_leaf_ctv(
    address: Seq<char>,
    network: Network,
    amount: u64,
    sequence: u32,
) -> Result<CtvView, CtvError> {
    if amount <= VAULT_FEE {
        Err(CtvError::AmountTooSmall)
    } else {
        Ok(
            CtvView {
                network,
                version: 1,
                locktime: 0,
                sequences: seq![sequence],
                outputs: seq![
                    OutputView::Address { address, amount: (amount - VAULT_FEE) as u64 },
                ],
            },
        )
    }
}

/// The template hash of the leaf template for `address`.
pub open spec fn spec_leaf_hash(
    address: Seq<char>,
    network: Network,
    amount: u64,
    sequence: u32,
) -> Result<Seq<u8>, CtvError> {
    match spec_leaf_ctv(address, network, amount, sequence) {
        Err(e) => Err(e),
        Ok(leaf) => spec_template_hash(leaf),
    }
}

/// The two-branch script of a vault. The branch taken on a true witness item
/// requires `delay` blocks to have passed and commits to `hot_hash`; the
/// other branch commits to `cold_hash` at once.
pub open spec fn vault_script(delay: u16, hot_hash: Seq<u8>, cold_hash: Seq<u8>) -> Seq<u8> {
    seq![OP_IF] + push_height(delay) + seq![OP_CSV, OP_DROP] + push_data(hot_hash) + seq![
        OP_NOP4,
        OP_ELSE,
    ] + push_data(cold_hash) + seq![OP_NOP4, OP_ENDIF]
}

/// What [`vault_script_from_hashes`] returns.
pub open spec fn spec_vault_script_from_hashes(
    delay: u16,
    hot_hash: Seq<u8>,
    cold_hash: Seq<u8>,
) -> Result<Seq<u8>, CtvError> {
    if hot_hash.len() == 32 && cold_hash.len() == 32 {
        Ok(vault_script(delay, hot_hash, cold_hash))
    } else {
        Err(CtvError::MalformedCommitment)
    }
}

/// The sequence number that a relative lock time of `delay` blocks asks of
/// the input that spends under it.
pub open spec fn delay_sequence(delay: u16) -> u32 {
    delay as u32
}

/// The template hash of the hot branch of a vault: that of the leaf template
/// for `hot` whose input carries the sequence number for `delay`, so that the
/// transaction it commits to can pass the lock time check of its branch.
pub open spec fn spec_hot_hash(delay: u16, hot: Seq<char>, network: Network, amount: u64) -> Result<
    Seq<u8>,
    CtvError,
> {
    spec_leaf_hash(hot, network, amount, delay_sequence(delay))
}

/// The template hash of the cold branch of a vault: that of the leaf
/// template for `cold` whose input carries sequence number 0.
pub open spec fn spec_cold_hash(cold: Seq<char>, network: Network, amount: u64) -> Result<
    Seq<u8>,
    CtvError,
> {
    spec_leaf_hash(cold, network, amount, 0)
}

/// What [`vault_locking_script`] returns: the two-branch script over the
/// template hashes of the two leaf templates. It fails with `AmountTooSmall`
/// if the amount does not exceed the fee, else as the cold template does, else
/// as the hot template does.
pub open spec fn spec_vault_locking_script(
    delay: u16,
    cold: Seq<char>,
    hot: Seq<char>,
    network: Network,
    amount: u64,
) -> Result<Seq<u8>, CtvError> {
    match spec_cold_hash(cold, network, amount) {
        Err(e) => Err(e),
        Ok(cold_hash) => match spec_hot_hash(delay, hot, network, amount) {
            Err(e) => Err(e),
            Ok(hot_hash) => Ok(vault_script(delay, hot_hash, cold_hash)),
        },
    }
}

/// Builds the template that pays `amount`, less the fee, to `address`, from
/// one input with sequence number `sequence`.
///
/// Fails with `AmountTooSmall` exactly when the amount does not exceed the
/// fee.
pub fn leaf_ctv(address: String, network: Network, amount: u64, sequence: u32) -> (leaf: Result<
    Ctv,
    CtvError,
>)
    ensures
        ctv_result(leaf) == spec_leaf_ctv(address@, network, amount, sequence),
{
    if amount <= VAULT_FEE {
        return Err(CtvError::AmountTooSmall);
    }
    let mut sequences: Vec<u32> = Vec::new();
    sequences.push(sequence);
    let mut outputs: Vec<Output> = Vec::new();
    outputs.push(Output::Address { address, amount: amount - VAULT_FEE });
    let leaf = Ctv { network, version: 1, locktime: 0, sequences, outputs };
    assert(leaf@.sequences =~= spec_leaf_ctv(address@, network, amount, sequence)->Ok_0.sequences);
    assert(leaf@.outputs =~= spec_leaf_ctv(address@, network, amount, sequence)->Ok_0.outputs);
    Ok(leaf)
}

/// Computes the template hash of the leaf template for `address`.
fn leaf_hash(address: String, network: Network, amount: u64, sequence: u32) -> (hash: Result<
    Vec<u8>,
    CtvError,
>)
    ensures
        bytes_result(hash) == spec_leaf_hash(address@, network, amount, sequence),
        hash matches Ok(bytes) ==> bytes@.len() == 32,
{
    match leaf_ctv(address, network, amount, sequence) {
        Err(e) => Err(e),
        Ok(leaf) => leaf.ctv(),
    }
}

/// Assembles the two-branch script of a vault from the two template hashes.
///
/// Fails with `MalformedCommitment` exactly when one of the hashes is not 32
/// bytes long.
pub fn vault_script_from_hashes(delay: u16, hot_hash: &Vec<u8>, cold_hash: &Vec<u8>) -> (script:
    Result<Vec<u8>, CtvError>)
    ensures
        bytes_result(script) == spec_vault_script_from_hashes(delay, hot_hash@, cold_hash@),
{
    if hot_hash.len() != 32 || cold_hash.len() != 32 {
        return Err(CtvError::MalformedCommitment);
    }
    let script = push_opcode(Vec::new(), OP_IF);
    let script = push_sequence(script, delay);
    let script = push_opcode(script, OP_CSV);
    let script = push_opcode(script, OP_DROP);
    let script = match push_slice(script, hot_hash) {
        Some(script) => script,
        None => {
            return Err(CtvError::MalformedCommitment);
        },
    };
    let script = push_opcode(script, OP_NOP4);
    let script = push_opcode(script, OP_ELSE);
    let script = match push_slice(script, cold_hash) {
        Some(script) => script,
        None => {
            return Err(CtvError::MalformedCommitment);
        },
    };
    let script = push_opcode(script, OP_NOP4);
    let script = push_opcode(script, OP_ENDIF);
    assert(script@ =~= vault_script(delay, hot_hash@, cold_hash@));
    Ok(script)
}

/// Turns a relative lock time in blocks into the sequence number of the
/// input that spends under it.
pub fn sequence_for_delay(delay: u16) -> (sequence: u32)
    ensures
        sequence == delay_sequence(delay),
{
    delay as u32
}

/// Builds the locking script of a vault that holds `amount` satoshis: after
/// `delay` blocks the funds can move to `hot`, and at any time to `cold`,
/// each time less the fee. The hot branch commits to a transaction whose
/// input carries the sequence number for `delay`, the cold branch to one
/// whose input carries sequence number 0. Both committed hashes are 32 bytes
/// long.
pub fn vault_locking_script(
    delay: u16,
    cold: String,
    hot: String,
    network: Network,
    amount: u64,
) -> (script: Result<Vec<u8>, CtvError>)
    ensures
        bytes_result(script) == spec_vault_locking_script(delay, cold@, hot@, network, amount),
        script is Ok ==> {
            &&& spec_hot_hash(delay, hot@, network, amount) matches Ok(hot_hash) && hot_hash.len()
                == 32
            &&& spec_cold_hash(cold@, network, amount) matches Ok(cold_hash) && cold_hash.len()
                == 32
        },
{
    let cold_hash = match leaf_hash(cold, network, amount, 0) {
        Err(e) => {
            return Err(e);
        },
        Ok(hash) => hash,
    };
    let hot_hash = match leaf_hash(hot, network, amount, sequence_for_delay(delay)) {
        Err(e) => {
            return Err(e);
        },
        Ok(hash) => hash,
    };
    vault_script_from_hashes(delay, &hot_hash, &cold_hash)
}

} // verus!
