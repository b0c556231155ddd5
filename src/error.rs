use vstd::prelude::*;

verus! {

/// Why an operation was refused. A refused operation changes nothing.
#[derive(PartialEq, Eq, Structural, Debug, Clone, Copy)]
pub enum ContractError {
    /// The listing or bucket does not exist.
    NotFound,
    /// The caller is not the owner of the record.
    Unauthorized,
    /// The record is not open.
    NotOpen,
    /// The listing has not been finalized.
    NotFinalized,
    /// The listing was already finalized.
    AlreadyFinalized,
    /// The listing's deadline has not been reached.
    NotExpired,
    /// The bucket has not bought anything yet.
    NotPurchased,
    /// The listing is closed or past its deadline.
    NotPurchasable,
    /// The two assets are of a different kind, denomination or issuer.
    AssetMismatch,
    /// Two non-fungible items cannot be combined.
    DuplicateNft,
    /// A non-fungible listing cannot take more assets.
    NftAlreadyListed,
    /// A non-fungible bucket cannot take more assets.
    NftAlreadyHeld,
    /// The bucket does not cover the ask.
    InsufficientFunds,
    /// A deposit of zero value.
    EmptyBalance,
    /// The buyer is not the listing's whitelisted buyer.
    NotWhitelisted,
    /// The owner already has a bucket with this identifier.
    BucketExists,
    /// A listing with this identifier already exists.
    IdTaken,
    /// An amount, a deadline or an identifier would not fit its integer type.
    Overflow,
}

} // verus!
