//! The typed outcomes with which an operation refuses a request.

use vstd::prelude::*;

verus! {

/// Why an operation was refused. A refusal changes nothing and issues no
/// instruction.
#[derive(Clone, Copy, Debug, PartialEq, Eq, Structural, Hash)]
pub enum ErrorCode {
    /// The end of the sale window does not lie in the future.
    EndSalesFuture,
    /// The threshold exceeds `sale_price * max_quantity`, or that product
    /// does not fit in 64 bits.
    ThresholdTooGreat,
    /// The sale window has not closed yet.
    SaleNotOver,
    /// The proceeds have not reached the threshold and never did.
    ThresholdNotMet,
    /// The proceeds do not cover one refund.
    InsufficientFunds,
    /// The metadata account holds no data.
    NFTMetadataEmpty,
    /// The second creator of the certificate's metadata is missing, is not
    /// the seller, or has not been verified.
    NFTMetadataCreatorNotVerified,
    /// The metadata account is not a metadata record of the certificate
    /// registry.
    NFTMetadataInvalid,
    /// The caller did not sign the request.
    MissingSignature,
    /// The caller is not the seller named in the record.
    CreatorMismatch,
    /// The record's account is not at the address derived for its seller.
    ConfigAddressMismatch,
    /// The seller's address already holds a record.
    ConfigAlreadyInitialized,
    /// The token account does not belong to the caller.
    TokenOwnerMismatch,
    /// The token account holds another mint than the one supplied.
    TokenMintMismatch,
    /// The token account does not hold exactly one unit.
    TokenAmountNotOne,
    /// The program supplied as certificate registry is not the registry.
    RegistryMismatch,
    /// The mint is not at the master edition address derived for it.
    MasterEditionMismatch,
    /// The metadata account is not at the address derived for the mint.
    MetadataAddressMismatch,
    /// The record's balance is below its rent-exemption floor: the account
    /// store broke its promise.
    BalanceBelowRentFloor,
}

} // verus!
