//! BIP-119 template commitments and a two-branch vault policy built on them.
//!
//! A template describes the shape of a future transaction. Its commitment
//! hash pins that shape down, so that an output locked to the hash can only be
//! spent by a transaction of exactly that shape. A vault combines two such
//! commitments, one behind a relative time lock, into one locking script.

pub mod ctv;
pub mod encoding;
pub mod error;
pub mod markup;
pub mod network;
pub mod script;
pub mod transaction;
pub mod vault;
