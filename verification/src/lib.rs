//! Client-side logic for a remote key-value store spoken to over one TCP
//! exchange per operation.
//!
//! The library builds the request value for each operation (store, get,
//! query, remove, cleanup, echo, ping), encodes it for the wire, and turns
//! the reply text back into the caller's typed result.  The raw TCP work —
//! connect, write, read — happens outside the library; its outcome reaches
//! the logic here as a plain [`transport::Exchange`] value.

use vstd::prelude::*;

pub mod laws;
pub mod provider;
pub mod scan;
pub mod transport;
pub mod wire;

verus! {

/// The single error kind every failure collapses into: connection failure,
/// write failure, read failure, decode failure, a server-reported failure
/// and a type-conversion failure are all reported as this one value.
#[derive(Clone, Copy, Debug, PartialEq, Eq, Structural)]
pub struct WimcError;

} // verus!
