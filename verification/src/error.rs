use vstd::prelude::*;

verus! {

/// The failures the vault reports to its callers, distinguished so that a
/// client can branch on them without parsing text.
#[derive(Debug, Clone, Copy, PartialEq, Eq, Structural)]
pub enum ContractError {
    /// The caller is not the recorded owner.
    Unauthorized {},
    /// The owner record, or the queried buyer record, is absent.
    NoDataStored {},
    /// A stored value could not be decoded as text.
    InvalidData {},
    /// The attached funds do not match the required price exactly.
    /// `got` is the sum of all attached amounts, whatever their denominations.
    InvalidFunds { expected: u128, got: u128 },
    /// The price computation exceeded the range of the amount type.
    Overflow {},
}

} // verus!
