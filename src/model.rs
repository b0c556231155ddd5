use vstd::prelude::*;

use crate::asset::{add_spec, is_zero_spec, meets_spec, surplus_spec, AssetV};
use crate::error::ContractError;
use crate::types::{BucketStateV, BucketV, ListingStatus, ListingV, TransferV};

verus! {

/// Mathematical model of the whole market: configuration and both ledgers.
pub struct MarketV {
    pub admin: Seq<char>,
    pub next_id: u64,
    pub listings: Seq<ListingV>,
    pub buckets: Seq<BucketV>,
}

/// What a successful operation leaves: the new market and the transfers to perform.
pub type Step = Result<(MarketV, Seq<TransferV>), ContractError>;

/// The position of the listing with identifier `id`, if any.
pub open spec fn find_listing(s: Seq<ListingV>, id: u64) -> Option<int>
    decreases s.len(),
{
    if s.len() == 0 {
        None
    } else if s.last().id == id {
        Some(s.len() - 1)
    } else {
        find_listing(s.drop_last(), id)
    }
}

/// The position of the bucket `id` of `owner`, if any.
pub open spec fn find_bucket(s: Seq<BucketV>, owner: Seq<char>, id: Seq<char>) -> Option<int>
    decreases s.len(),
{
    if s.len() == 0 {
        None
    } else if s.last().owner == owner && s.last().id == id {
        Some(s.len() - 1)
    } else {
        find_bucket(s.drop_last(), owner, id)
    }
}

/// Listing identifiers are unique and below the next one to be handed out;
/// no owner has two buckets with one identifier.
pub open spec fn market_wf(m: MarketV) -> bool {
    &&& forall|i: int, j: int|
        0 <= i < m.listings.len() && 0 <= j < m.listings.len() && i != j
            ==> #[trigger] m.listings[i].id != #[trigger] m.listings[j].id
    &&& forall|i: int| 0 <= i < m.listings.len() ==> #[trigger] m.listings[i].id < m.next_id
    &&& forall|i: int, j: int|
        0 <= i < m.buckets.len() && 0 <= j < m.buckets.len() && i != j
            ==> !(#[trigger] m.buckets[i].owner == #[trigger] m.buckets[j].owner
            && m.buckets[i].id == m.buckets[j].id)
}

/// `find_listing` yields the last position holding the identifier.
pub proof fn lemma_find_listing(s: Seq<ListingV>, id: u64)
    ensures
        match find_listing(s, id) {
            Some(i) => 0 <= i < s.len() && s[i].id == id
                && forall|j: int| i < j < s.len() ==> #[trigger] s[j].id != id,
            None => forall|j: int| 0 <= j < s.len() ==> #[trigger] s[j].id != id,
        },
    decreases s.len(),
{
    if s.len() > 0 && s.last().id != id {
        lemma_find_listing(s.drop_last(), id);
        assert forall|j: int| 0 <= j < s.len() - 1 implies #[trigger] s[j].id == s.drop_last()[j].id by {}
    }
}

/// `find_bucket` yields the last position holding the key.
pub proof fn lemma_find_bucket(s: Seq<BucketV>, owner: Seq<char>, id: Seq<char>)
    ensures
        match find_bucket(s, owner, id) {
            Some(i) => 0 <= i < s.len() && s[i].owner == owner && s[i].id == id
                && forall|j: int| i < j < s.len() ==> !(#[trigger] s[j].owner == owner && s[j].id == id),
            None => forall|j: int| 0 <= j < s.len() ==> !(#[trigger] s[j].owner == owner && s[j].id == id),
        },
    decreases s.len(),
{
    if s.len() > 0 && !(s.last().owner == owner && s.last().id == id) {
        lemma_find_bucket(s.drop_last(), owner, id);
        assert forall|j: int| 0 <= j < s.len() - 1 implies #[trigger] s[j] == s.drop_last()[j] by {}
    }
}

/// Whether a listing may be bought at time `now`.
pub open spec fn purchasable(l: ListingV, now: u64) -> bool {
    match l.status {
        ListingStatus::Open => true,
        ListingStatus::Finalized { deadline } => now < deadline,
    }
}

/// `m` with other listings.
pub open spec fn with_listings(m: MarketV, listings: Seq<ListingV>) -> MarketV {
    MarketV { listings, ..m }
}

/// `m` with other buckets.
pub open spec fn with_buckets(m: MarketV, buckets: Seq<BucketV>) -> MarketV {
    MarketV { buckets, ..m }
}

/// Opening a listing: a non-empty deposit, under a free identifier.
pub open spec fn create_listing_spec(
    m: MarketV,
    seller: Seq<char>,
    deposit: AssetV,
    ask: AssetV,
    whitelisted_buyer: Option<Seq<char>>,
    id: Option<u64>,
) -> Step {
    let fresh = |i: u64|
        ListingV { id: i, seller, sale: deposit, ask, whitelisted_buyer, status: ListingStatus::Open };
    if is_zero_spec(deposit) {
        Err(ContractError::EmptyBalance)
    } else {
        match id {
            Some(i) => if find_listing(m.listings, i) is Some {
                Err(ContractError::IdTaken)
            } else if i == u64::MAX {
                Err(ContractError::Overflow)
            } else {
                let next = if i < m.next_id { m.next_id } else { (i + 1) as u64 };
                Ok((MarketV { next_id: next, listings: m.listings.push(fresh(i)), ..m }, seq![]))
            },
            None => if m.next_id == u64::MAX {
                Err(ContractError::Overflow)
            } else {
                Ok((
                    MarketV { next_id: (m.next_id + 1) as u64, listings: m.listings.push(fresh(m.next_id)), ..m },
                    seq![],
                ))
            },
        }
    }
}

/// The checks shared by the seller's own operations on an open listing.
pub open spec fn seller_open_check(m: MarketV, id: u64, caller: Seq<char>) -> Result<int, ContractError> {
    match find_listing(m.listings, id) {
        None => Err(ContractError::NotFound),
        Some(i) => if m.listings[i].seller != caller {
            Err(ContractError::Unauthorized)
        } else if m.listings[i].status != ListingStatus::Open {
            Err(ContractError::NotOpen)
        } else {
            Ok(i)
        },
    }
}

/// Topping up an open fungible listing, by its seller only.
pub open spec fn add_funds_to_sale_spec(m: MarketV, id: u64, depositor: Seq<char>, amount: AssetV) -> Step {
    match seller_open_check(m, id, depositor) {
        Err(e) => Err(e),
        Ok(i) => {
            let l = m.listings[i];
            if l.sale is Nft {
                Err(ContractError::NftAlreadyListed)
            } else {
                match add_spec(l.sale, amount) {
                    Err(e) => Err(e),
                    Ok(s) => Ok((with_listings(m, m.listings.update(i, ListingV { sale: s, ..l })), seq![])),
                }
            }
        },
    }
}

/// Changing the ask of an open listing, by its seller only.
pub open spec fn change_ask_spec(m: MarketV, id: u64, caller: Seq<char>, ask: AssetV) -> Step {
    match seller_open_check(m, id, caller) {
        Err(e) => Err(e),
        Ok(i) => Ok((with_listings(m, m.listings.update(i, ListingV { ask, ..m.listings[i] })), seq![])),
    }
}

/// Setting or clearing the one buyer a listing admits, by its seller only.
pub open spec fn set_whitelisted_buyer_spec(
    m: MarketV,
    id: u64,
    caller: Seq<char>,
    buyer: Option<Seq<char>>,
) -> Step {
    match find_listing(m.listings, id) {
        None => Err(ContractError::NotFound),
        Some(i) => if m.listings[i].seller != caller {
            Err(ContractError::Unauthorized)
        } else {
            Ok((
                with_listings(m, m.listings.update(i, ListingV { whitelisted_buyer: buyer, ..m.listings[i] })),
                seq![],
            ))
        },
    }
}

/// Withdrawing an open listing: its asset goes back to the seller.
pub open spec fn remove_listing_spec(m: MarketV, id: u64, caller: Seq<char>) -> Step {
    match seller_open_check(m, id, caller) {
        Err(e) => Err(e),
        Ok(i) => Ok((
            with_listings(m, m.listings.remove(i)),
            seq![TransferV { recipient: m.listings[i].seller, asset: m.listings[i].sale }],
        )),
    }
}

/// Finalizing an open listing: its deadline becomes `now + seconds`.
pub open spec fn finalize_spec(m: MarketV, id: u64, caller: Seq<char>, now: u64, seconds: u64) -> Step {
    match find_listing(m.listings, id) {
        None => Err(ContractError::NotFound),
        Some(i) => if m.listings[i].seller != caller {
            Err(ContractError::Unauthorized)
        } else if m.listings[i].status != ListingStatus::Open {
            Err(ContractError::AlreadyFinalized)
        } else if now + seconds > u64::MAX {
            Err(ContractError::Overflow)
        } else {
            let status = ListingStatus::Finalized { deadline: (now + seconds) as u64 };
            Ok((with_listings(m, m.listings.update(i, ListingV { status, ..m.listings[i] })), seq![]))
        },
    }
}

/// Refunding a finalized listing to its seller once its deadline is reached.
pub open spec fn refund_expired_spec(m: MarketV, id: u64, caller: Seq<char>, now: u64) -> Step {
    match find_listing(m.listings, id) {
        None => Err(ContractError::NotFound),
        Some(i) => if m.listings[i].seller != caller {
            Err(ContractError::Unauthorized)
        } else {
            match m.listings[i].status {
                ListingStatus::Open => Err(ContractError::NotFinalized),
                ListingStatus::Finalized { deadline } => if now < deadline {
                    Err(ContractError::NotExpired)
                } else {
                    Ok((
                        with_listings(m, m.listings.remove(i)),
                        seq![TransferV { recipient: m.listings[i].seller, asset: m.listings[i].sale }],
                    ))
                },
            }
        },
    }
}

/// Opening a bucket under an identifier that its owner does not use yet.
pub open spec fn create_bucket_spec(m: MarketV, owner: Seq<char>, id: Seq<char>, deposit: AssetV) -> Step {
    if find_bucket(m.buckets, owner, id) is Some {
        Err(ContractError::BucketExists)
    } else if is_zero_spec(deposit) {
        Err(ContractError::EmptyBalance)
    } else {
        let b = BucketV { owner, id, state: BucketStateV::Open { balance: deposit } };
        Ok((with_buckets(m, m.buckets.push(b)), seq![]))
    }
}

/// Topping up an open fungible bucket.
pub open spec fn add_to_bucket_spec(m: MarketV, owner: Seq<char>, id: Seq<char>, amount: AssetV) -> Step {
    match find_bucket(m.buckets, owner, id) {
        None => Err(ContractError::NotFound),
        Some(i) => match m.buckets[i].state {
            BucketStateV::Consumed { .. } => Err(ContractError::NotOpen),
            BucketStateV::Open { balance } => if balance is Nft {
                Err(ContractError::NftAlreadyHeld)
            } else {
                match add_spec(balance, amount) {
                    Err(e) => Err(e),
                    Ok(s) => {
                        let b = BucketV { state: BucketStateV::Open { balance: s }, ..m.buckets[i] };
                        Ok((with_buckets(m, m.buckets.update(i, b)), seq![]))
                    },
                }
            },
        },
    }
}

/// Closing an open bucket: its escrow goes back to the owner.
pub open spec fn remove_bucket_spec(m: MarketV, owner: Seq<char>, id: Seq<char>) -> Step {
    match find_bucket(m.buckets, owner, id) {
        None => Err(ContractError::NotFound),
        Some(i) => match m.buckets[i].state {
            BucketStateV::Consumed { .. } => Err(ContractError::NotOpen),
            BucketStateV::Open { balance } => Ok((
                with_buckets(m, m.buckets.remove(i)),
                seq![TransferV { recipient: owner, asset: balance }],
            )),
        },
    }
}

/// Releasing what a consumed bucket bought, and its surplus, to its owner.
pub open spec fn withdraw_purchased_spec(m: MarketV, owner: Seq<char>, id: Seq<char>) -> Step {
    match find_bucket(m.buckets, owner, id) {
        None => Err(ContractError::NotFound),
        Some(i) => match m.buckets[i].state {
            BucketStateV::Open { .. } => Err(ContractError::NotPurchased),
            BucketStateV::Consumed { purchased, surplus } => {
                let first = seq![TransferV { recipient: owner, asset: purchased }];
                let all = match surplus {
                    Some(s) => first.push(TransferV { recipient: owner, asset: s }),
                    None => first,
                };
                Ok((with_buckets(m, m.buckets.remove(i)), all))
            },
        },
    }
}

/// Swapping an open bucket of the buyer for a purchasable listing; the first
/// failing check decides the error.
pub open spec fn buy_listing_spec(
    m: MarketV,
    buyer: Seq<char>,
    listing_id: u64,
    bucket_id: Seq<char>,
    now: u64,
) -> Step {
    match find_listing(m.listings, listing_id) {
        None => Err(ContractError::NotFound),
        Some(li) => {
            let l = m.listings[li];
            if !purchasable(l, now) {
                Err(ContractError::NotPurchasable)
            } else if l.whitelisted_buyer is Some && l.whitelisted_buyer != Some(buyer) {
                Err(ContractError::NotWhitelisted)
            } else {
                match find_bucket(m.buckets, buyer, bucket_id) {
                    None => Err(ContractError::NotFound),
                    Some(bi) => match m.buckets[bi].state {
                        BucketStateV::Consumed { .. } => Err(ContractError::NotOpen),
                        BucketStateV::Open { balance } => if !meets_spec(balance, l.ask) {
                            Err(ContractError::InsufficientFunds)
                        } else {
                            let state = BucketStateV::Consumed {
                                purchased: l.sale,
                                surplus: surplus_spec(balance, l.ask),
                            };
                            let b = BucketV { state, ..m.buckets[bi] };
                            Ok((
                                MarketV {
                                    listings: m.listings.remove(li),
                                    buckets: m.buckets.update(bi, b),
                                    ..m
                                },
                                seq![TransferV { recipient: l.seller, asset: l.ask }],
                            ))
                        },
                    },
                }
            }
        },
    }
}

/// One operation on the market, with its caller and arguments.
pub enum Action {
    CreateListing {
        seller: Seq<char>,
        deposit: AssetV,
        ask: AssetV,
        whitelisted_buyer: Option<Seq<char>>,
        requested_id: Option<u64>,
    },
    AddFundsToSale { id: u64, depositor: Seq<char>, amount: AssetV },
    ChangeAsk { id: u64, caller: Seq<char>, ask: AssetV },
    SetWhitelistedBuyer { id: u64, caller: Seq<char>, whitelisted_buyer: Option<Seq<char>> },
    RemoveListing { id: u64, caller: Seq<char> },
    Finalize { id: u64, caller: Seq<char>, now: u64, seconds: u64 },
    RefundExpired { id: u64, caller: Seq<char>, now: u64 },
    CreateBucket { owner: Seq<char>, bucket_id: Seq<char>, deposit: AssetV },
    AddToBucket { owner: Seq<char>, bucket_id: Seq<char>, amount: AssetV },
    RemoveBucket { owner: Seq<char>, bucket_id: Seq<char> },
    WithdrawPurchased { owner: Seq<char>, bucket_id: Seq<char> },
    BuyListing { buyer: Seq<char>, listing_id: u64, bucket_id: Seq<char>, now: u64 },
}

/// The outcome of `a` on `m`.
pub open spec fn apply(m: MarketV, a: Action) -> Step {
    match a {
        Action::CreateListing { seller, deposit, ask, whitelisted_buyer, requested_id } =>
            create_listing_spec(m, seller, deposit, ask, whitelisted_buyer, requested_id),
        Action::AddFundsToSale { id, depositor, amount } => add_funds_to_sale_spec(m, id, depositor, amount),
        Action::ChangeAsk { id, caller, ask } => change_ask_spec(m, id, caller, ask),
        Action::SetWhitelistedBuyer { id, caller, whitelisted_buyer } =>
            set_whitelisted_buyer_spec(m, id, caller, whitelisted_buyer),
        Action::RemoveListing { id, caller } => remove_listing_spec(m, id, caller),
        Action::Finalize { id, caller, now, seconds } => finalize_spec(m, id, caller, now, seconds),
        Action::RefundExpired { id, caller, now } => refund_expired_spec(m, id, caller, now),
        Action::CreateBucket { owner, bucket_id, deposit } => create_bucket_spec(m, owner, bucket_id, deposit),
        Action::AddToBucket { owner, bucket_id, amount } => add_to_bucket_spec(m, owner, bucket_id, amount),
        Action::RemoveBucket { owner, bucket_id } => remove_bucket_spec(m, owner, bucket_id),
        Action::WithdrawPurchased { owner, bucket_id } => withdraw_purchased_spec(m, owner, bucket_id),
        Action::BuyListing { buyer, listing_id, bucket_id, now } =>
            buy_listing_spec(m, buyer, listing_id, bucket_id, now),
    }
}

/// The asset that `a` brings into escrow, if any.
pub open spec fn deposit_of(a: Action) -> Option<AssetV> {
    match a {
        Action::CreateListing { deposit, .. } => Some(deposit),
        Action::AddFundsToSale { amount, .. } => Some(amount),
        Action::CreateBucket { deposit, .. } => Some(deposit),
        Action::AddToBucket { amount, .. } => Some(amount),
        _ => None,
    }
}

} // verus!
