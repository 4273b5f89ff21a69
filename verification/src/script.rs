//! Script bytes, built one instruction at a time, and what addresses stand for.

use crate::encoding::u32_le;
use crate::network::Network;
use vstd::prelude::*;

verus! {

/// Runs the following branch if the popped item is not zero.
pub const OP_IF: u8 = 0x63;

/// Starts the branch that runs when the one before it did not.
pub const OP_ELSE: u8 = 0x67;

/// Ends a conditional.
pub const OP_ENDIF: u8 = 0x68;

/// Fails the script; marks an output that carries data only.
pub const OP_RETURN: u8 = 0x6a;

/// Drops the top item.
pub const OP_DROP: u8 = 0x75;

/// Requires the relative lock time on top of the stack to have passed.
pub const OP_CSV: u8 = 0xb2;

/// Requires the spending transaction to hash to the template hash on top of
/// the stack.
pub const OP_NOP4: u8 = 0xb3;

/// The number of bytes from which on one push cannot hold a byte string.
pub const PUSH_LIMIT: u64 = 0x1_0000_0000;

/// The instruction that pushes `data`: a length marker, then the bytes.
pub open spec fn push_data(data: Seq<u8>) -> Seq<u8> {
    let n = data.len();
    if n < 0x4c {
        seq![n as u8] + data
    } else if n < 0x100 {
        seq![0x4cu8, n as u8] + data
    } else if n < 0x1_0000 {
        seq![0x4du8, (n % 256) as u8, (n / 256) as u8] + data
    } else {
        seq![0x4eu8] + u32_le(n as u32) + data
    }
}

/// The instruction that pushes a block height as a number: a one-byte opcode
/// up to sixteen, otherwise the shortest little-endian form whose top bit is
/// clear.
pub open spec fn push_height(height: u16) -> Seq<u8> {
    if height == 0 {
        seq![0x00u8]
    } else if height <= 16 {
        seq![(0x50 + height) as u8]
    } else if height < 0x80 {
        seq![0x01u8, height as u8]
    } else if height < 0x100 {
        seq![0x02u8, height as u8, 0x00u8]
    } else if height < 0x8000 {
        seq![0x02u8, (height % 256) as u8, (height / 256) as u8]
    } else {
        seq![0x03u8, (height % 256) as u8, (height / 256) as u8, 0x00u8]
    }
}

/// The locking script that pays to the hash of the witness script `script`.
pub uninterp spec fn spec_p2wsh_script(script: Seq<u8>) -> Seq<u8>;

/// The address on `network` that pays to the hash of the witness script
/// `script`.
pub uninterp spec fn spec_locking_address(script: Seq<u8>, network: Network) -> Seq<char>;

/// The locking script of the address written as `address`, or `None` if the
/// text is no address or the address does not belong to `network`.
pub uninterp spec fn spec_address_script(address: Seq<char>, network: Network) -> Option<Seq<u8>>;

/// Appends one opcode to a script.
///
/// Calls `bitcoin::script::Builder::push_opcode` on a builder that holds
/// `script`. The method appends the opcode's byte and nothing else.
#[verifier::external_body]
pub(crate) fn push_opcode(script: Vec<u8>, opcode: u8) -> (out: Vec<u8>)
    ensures
        out@ == script@.push(opcode),
{
    let builder = bitcoin::script::Builder::from(script);
    builder.push_opcode(bitcoin::opcodes::Opcode::from(opcode)).into_bytes()
}

/// Appends a push of `data` to a script, if one push can hold it.
///
/// Calls `bitcoin::script::Builder::push_slice` on a builder that holds
/// `script`, with `data` turned into `bitcoin::script::PushBytes`. The
/// conversion fails from 2^32 bytes on; below that the method appends the
/// length marker and the bytes.
#[verifier::external_body]
pub(crate) fn push_slice(script: Vec<u8>, data: &Vec<u8>) -> (out: Option<Vec<u8>>)
    ensures
        out is Some <==> data@.len() < PUSH_LIMIT,
        out matches Some(bytes) ==> bytes@ == script@ + push_data(data@),
{
    match <&bitcoin::script::PushBytes>::try_from(data.as_slice()) {
        Ok(bytes) => Some(bitcoin::script::Builder::from(script).push_slice(bytes).into_bytes()),
        Err(_) => None,
    }
}

/// Appends a push of a relative lock time of `height` blocks to a script.
///
/// Calls `bitcoin::script::Builder::push_sequence` on a builder that holds
/// `script`, with `bitcoin::Sequence::from_height(height)`. The method pushes
/// the sequence number as a script number.
#[verifier::external_body]
pub(crate) fn push_sequence(script: Vec<u8>, height: u16) -> (out: Vec<u8>)
    ensures
        out@ == script@ + push_height(height),
{
    let builder = bitcoin::script::Builder::from(script);
    builder.push_sequence(bitcoin::Sequence::from_height(height)).into_bytes()
}

/// Builds the unspendable script that carries `data`, if one push can hold it.
///
/// Fills a `bitcoin::script::PushBytesBuf` with `data`, which fails from 2^32
/// bytes on, and calls `bitcoin::ScriptBuf::new_op_return` on it: the opcode
/// `OP_RETURN`, then a push of the data.
#[verifier::external_body]
pub(crate) fn op_return_script(data: &[u8]) -> (out: Option<Vec<u8>>)
    ensures
        out is Some <==> data@.len() < PUSH_LIMIT,
        out matches Some(bytes) ==> bytes@ == seq![OP_RETURN] + push_data(data@),
{
    let mut buf = bitcoin::script::PushBytesBuf::new();
    match buf.extend_from_slice(data) {
        Ok(()) => Some(bitcoin::ScriptBuf::new_op_return(&buf).into_bytes()),
        Err(_) => None,
    }
}

/// Computes the locking script that pays to the hash of a witness script.
///
/// Calls `bitcoin::Script::wscript_hash` on `script` and
/// `bitcoin::ScriptBuf::new_p2wsh` on the hash. The contract names the
/// result, which depends on `script` alone, and states its shape: the opcode
/// of witness version 0, then a push of the 32 bytes of the hash.
#[verifier::external_body]
pub(crate) fn p2wsh_script(script: &Vec<u8>) -> (out: Vec<u8>)
    ensures
        out@ == spec_p2wsh_script(script@),
        out@.len() == 34,
        out@[0] == 0x00,
        out@[1] == 0x20,
{
    let hash = bitcoin::Script::from_bytes(script).wscript_hash();
    bitcoin::ScriptBuf::new_p2wsh(&hash).into_bytes()
}

/// Computes the locking script of an address, if the text is an address of
/// `network`.
///
/// Parses `address` with `bitcoin::Address::from_str`, checks it with
/// `bitcoin::Address::require_network` and calls
/// `bitcoin::Address::script_pubkey`. The contract names the result, which
/// depends on the text and the network alone; it is `None` where parsing or
/// the check fails.
#[verifier::external_body]
pub(crate) fn address_script(address: &str, network: Network) -> (out: Option<Vec<u8>>)
    ensures
        out is Some <==> spec_address_script(address@, network) is Some,
        out matches Some(bytes) ==> spec_address_script(address@, network) == Some(bytes@),
{
    let required = match network {
        Network::Bitcoin => bitcoin::Network::Bitcoin,
        Network::Testnet => bitcoin::Network::Testnet,
        Network::Testnet4 => bitcoin::Network::Testnet4,
        Network::Signet => bitcoin::Network::Signet,
        Network::Regtest => bitcoin::Network::Regtest,
    };
    let parsed = address.parse::<bitcoin::Address<_>>().ok()?;
    let checked = parsed.require_network(required).ok()?;
    Some(checked.script_pubkey().into_bytes())
}

} // verus!
