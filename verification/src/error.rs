use vstd::prelude::*;

verus! {

/// Every failure the factory or a collection can report to its caller.
///
/// All failures are surfaced synchronously; a call that returns an error
/// leaves the state exactly as it found it.
#[derive(Clone, Copy, Debug, PartialEq, Eq, Structural)]
pub enum ContractError {
    /// The caller is not the admin, owner or minter the operation demands.
    Unauthorized,
    /// The symbol is not made of uppercase ASCII letters, or is empty.
    InvalidSymbolFormat,
    /// A collection with this symbol already exists, pending or resolved.
    SymbolAlreadyTaken,
    /// No pending collection entry matches the correlation token.
    PendingCreationNotFound,
    /// No collection with the requested symbol exists.
    CollectionNotFound,
    /// The host delivered a reply with an id this contract never issued.
    UnknownReplyId { id: u64 },
    /// House and artist percentages do not sum to 100.
    InvalidRoyaltySum,
    /// The settlement denomination is absent from the supplied funds.
    PaymentMissing,
    /// The supplied amount in the settlement denomination is below the price.
    PaymentInsufficient,
    /// The derived token identifier is already present in the registry.
    TokenExists,
    /// No pass with the requested identifier exists.
    TokenNotFound,
    /// The pass is still active or in its grace period and cannot be burned.
    PassNotExpired,
    /// The identifier counter is exhausted; no further entry can be created.
    MaxSupplyReached,
    /// The acknowledgment payload could not be understood.
    InvalidInstantiation,
    /// Passes are soulbound: transfers and approvals always fail.
    Soulbound,
}

impl ContractError {
    /// A human-readable description of the failure.
    pub fn message(&self) -> String {
        match self {
            ContractError::Unauthorized => String::from_str("Unauthorized"),
            ContractError::InvalidSymbolFormat => String::from_str(
                "Invalid symbol format. Must be uppercase and no spaces",
            ),
            ContractError::SymbolAlreadyTaken => String::from_str("Symbol is already taken"),
            ContractError::PendingCreationNotFound => String::from_str(
                "Pending creation not found",
            ),
            ContractError::CollectionNotFound => String::from_str("Collection not found"),
            ContractError::UnknownReplyId { .. } => String::from_str("Unknown reply ID"),
            ContractError::InvalidRoyaltySum => String::from_str(
                "House and artist percentages must sum to 100",
            ),
            ContractError::PaymentMissing => String::from_str("No uxion payment found"),
            ContractError::PaymentInsufficient => String::from_str("Invalid payment amount"),
            ContractError::TokenExists => String::from_str("Token ID already exists"),
            ContractError::TokenNotFound => String::from_str("Token not found"),
            ContractError::PassNotExpired => String::from_str("Pass is not expired"),
            ContractError::MaxSupplyReached => String::from_str("Maximum supply reached"),
            ContractError::InvalidInstantiation => String::from_str(
                "Invalid contract instantiation",
            ),
            ContractError::Soulbound => String::from_str(
                "Pass is soulbound and cannot be transferred",
            ),
        }
    }
}

} // verus!
