use vstd::prelude::*;

verus! {

/// The failure kinds of the credit-scoring contract.
#[derive(Clone, Copy, Debug, PartialEq, Eq, Structural)]
pub enum ContractError {
    /// The admin identity given at instantiation is not a well-formed address.
    InvalidAddress,
    /// The caller of a field-update operation is not the configured admin.
    Unauthorized,
    /// A read found no record under the given key.
    NotFound,
    /// The score formula would exceed the representable range.
    ArithmeticOverflow,
}

} // verus!
