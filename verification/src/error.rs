//! The ways in which building a commitment, a script or a transaction fails.

use vstd::prelude::*;

verus! {

/// Why an operation of this library gave no result. Every failure is final:
/// no operation hands out a partly built script or transaction.
#[derive(Clone, Copy, Debug, PartialEq, Eq, Structural)]
pub enum CtvError {
    /// An address is not well formed, or does not belong to the template's network.
    InvalidAddressForNetwork,
    /// A template without sequence numbers was asked to spend an outpoint.
    MissingSequence,
    /// A data output carries more bytes than one script push can hold.
    DataTooLarge,
    /// A commitment hash is not exactly 32 bytes long.
    MalformedCommitment,
    /// Interchange text could not be read back into the data model.
    SerializationFailure,
    /// A vault holds no more than the fixed fee, so nothing is left to pay out.
    AmountTooSmall,
}

/// The mathematical value of a result that holds bytes.
pub open spec fn bytes_result(r: Result<Vec<u8>, CtvError>) -> Result<Seq<u8>, CtvError> {
    match r {
        Ok(bytes) => Ok(bytes@),
        Err(e) => Err(e),
    }
}

} // verus!
