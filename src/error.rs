use vstd::prelude::*;

verus! {

/// Why an escrow operation was refused. A refused operation changes nothing.
#[derive(Clone, Copy, Debug, PartialEq, Eq, Structural)]
pub enum ErrorCode {
    /// An offered or wanted amount is zero.
    InvalidAmount,
    /// The offered and the wanted asset are the same.
    InvalidTokenMint,
    /// The maker's asset-A account cannot pay the offered amount.
    InsufficientMakerBalance,
    /// Moving the vault's content to the taker failed.
    FailedVaultWithdrawal,
    /// Closing the emptied vault failed.
    FailedVaultClosure,
    /// The taker's asset-B account cannot pay the wanted amount.
    InsufficientTakerBalance,
    /// An open offer already holds this id.
    OfferAlreadyExists,
    /// No open offer holds this id.
    OfferNotFound,
    /// No off-curve address could be derived for the offer.
    AddressDerivationFailed,
    /// The maker cannot pay the storage deposits of the offer and its vault.
    InsufficientDepositFunds,
    /// A supplied account does not match the offer's maker or wanted asset.
    AccountMismatch,
    /// A lamport balance would exceed the largest representable value.
    LamportOverflow,
}

} // verus!
