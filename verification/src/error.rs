//! The typed error every exchange operation can surface.
use vstd::prelude::*;

verus! {

/// Failure modes of an exchange operation. Callers branch on the variant:
/// `Network` is a transport failure reported by the surrounding application,
/// `BasePairNotFound` means a raw pair string matched no known base currency,
/// `Unsupported` marks an operation an exchange legitimately does not offer,
/// and `Generic` carries a message for the remaining recoverable failures
/// (such as an unparsable numeric field in an exchange response).
#[derive(Debug, Clone)]
pub enum TrailerError {
    Network(String),
    BasePairNotFound,
    Unsupported,
    Generic(String),
}

} // verus!
