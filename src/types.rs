use vstd::prelude::*;

use crate::asset::{Asset, AssetV};

verus! {

/// Where a listing stands in its life. A closed listing is removed from the ledger.
#[derive(PartialEq, Eq, Structural, Debug, Clone, Copy)]
pub enum ListingStatus {
    /// Purchasable; the seller may still change it.
    Open,
    /// Purchasable strictly before `deadline`, refundable from `deadline` on.
    Finalized { deadline: u64 },
}

/// An asset offered for sale at an ask.
#[derive(PartialEq, Eq, Debug)]
pub struct Listing {
    pub id: u64,
    pub seller: String,
    pub sale: Asset,
    pub ask: Asset,
    pub whitelisted_buyer: Option<String>,
    pub status: ListingStatus,
}

/// Mathematical model of a [`Listing`].
pub struct ListingV {
    pub id: u64,
    pub seller: Seq<char>,
    pub sale: AssetV,
    pub ask: AssetV,
    pub whitelisted_buyer: Option<Seq<char>>,
    pub status: ListingStatus,
}

/// What a bucket holds.
#[derive(PartialEq, Eq, Debug)]
pub enum BucketState {
    /// Escrowed value waiting to buy a listing.
    Open { balance: Asset },
    /// A purchase waiting to be withdrawn, with what the bucket held beyond the ask.
    Consumed { purchased: Asset, surplus: Option<Asset> },
}

/// Mathematical model of a [`BucketState`].
pub enum BucketStateV {
    Open { balance: AssetV },
    Consumed { purchased: AssetV, surplus: Option<AssetV> },
}

/// A buyer's escrow, keyed by owner and identifier.
#[derive(PartialEq, Eq, Debug)]
pub struct Bucket {
    pub owner: String,
    pub id: String,
    pub state: BucketState,
}

/// Mathematical model of a [`Bucket`].
pub struct BucketV {
    pub owner: Seq<char>,
    pub id: Seq<char>,
    pub state: BucketStateV,
}

/// An asset leaving escrow for an outside address.
#[derive(PartialEq, Eq, Debug)]
pub struct Transfer {
    pub recipient: String,
    pub asset: Asset,
}

/// Mathematical model of a [`Transfer`].
pub struct TransferV {
    pub recipient: Seq<char>,
    pub asset: AssetV,
}

/// The view of an optional string.
pub open spec fn opt_view(o: Option<String>) -> Option<Seq<char>> {
    match o {
        Some(s) => Some(s@),
        None => None,
    }
}

/// The view of an optional asset.
pub open spec fn opt_asset_view(o: Option<Asset>) -> Option<AssetV> {
    match o {
        Some(a) => Some(a@),
        None => None,
    }
}

impl View for Listing {
    type V = ListingV;

    open spec fn view(&self) -> ListingV {
        ListingV {
            id: self.id,
            seller: self.seller@,
            sale: self.sale@,
            ask: self.ask@,
            whitelisted_buyer: opt_view(self.whitelisted_buyer),
            status: self.status,
        }
    }
}

impl View for BucketState {
    type V = BucketStateV;

    open spec fn view(&self) -> BucketStateV {
        match self {
            BucketState::Open { balance } => BucketStateV::Open { balance: balance@ },
            BucketState::Consumed { purchased, surplus } => BucketStateV::Consumed {
                purchased: purchased@,
                surplus: opt_asset_view(*surplus),
            },
        }
    }
}

impl View for Bucket {
    type V = BucketV;

    open spec fn view(&self) -> BucketV {
        BucketV { owner: self.owner@, id: self.id@, state: self.state@ }
    }
}

impl View for Transfer {
    type V = TransferV;

    open spec fn view(&self) -> TransferV {
        TransferV { recipient: self.recipient@, asset: self.asset@ }
    }
}

/// The views of a list of transfers.
pub open spec fn transfers_view(t: Seq<Transfer>) -> Seq<TransferV> {
    t.map_values(|x: Transfer| x@)
}

/// A copy of an optional string.
pub fn clone_opt_string(o: &Option<String>) -> (r: Option<String>)
    ensures
        opt_view(r) == opt_view(*o),
{
    match o {
        Some(s) => Some(s.clone()),
        None => None,
    }
}

/// A copy of an optional asset.
pub fn clone_opt_asset(o: &Option<Asset>) -> (r: Option<Asset>)
    ensures
        opt_asset_view(r) == opt_asset_view(*o),
{
    match o {
        Some(a) => Some(a.duplicate()),
        None => None,
    }
}

impl Listing {
    /// A copy of the listing.
    pub fn duplicate(&self) -> (r: Listing)
        ensures
            r@ == self@,
    {
        Listing {
            id: self.id,
            seller: self.seller.clone(),
            sale: self.sale.duplicate(),
            ask: self.ask.duplicate(),
            whitelisted_buyer: clone_opt_string(&self.whitelisted_buyer),
            status: self.status,
        }
    }
}

impl Bucket {
    /// A copy of the bucket.
    pub fn duplicate(&self) -> (r: Bucket)
        ensures
            r@ == self@,
    {
        let state = match &self.state {
            BucketState::Open { balance } => BucketState::Open { balance: balance.duplicate() },
            BucketState::Consumed { purchased, surplus } => BucketState::Consumed {
                purchased: purchased.duplicate(),
                surplus: clone_opt_asset(surplus),
            },
        };
        Bucket { owner: self.owner.clone(), id: self.id.clone(), state }
    }
}

} // verus!
