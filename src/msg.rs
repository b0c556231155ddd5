use vstd::prelude::*;

use crate::asset::{native_from_coins, native_from_coins_spec, Asset, AssetV, Coin};
use crate::error::ContractError;
use crate::market::{follows, selects, ListingFilter, Market};
use crate::model::{apply, market_wf, purchasable, Action, MarketV};
use crate::types::{opt_view, transfers_view, Bucket, BucketV, Listing, ListingV, Transfer, TransferV};

verus! {

/// The terms of a new listing.
pub struct CreateListingMsg {
    /// The identifier to give the listing; the next free one when absent.
    pub id: Option<u64>,
    pub ask: Asset,
    pub whitelisted_buyer: Option<String>,
}

/// A call made with native coins attached, or with none.
pub enum ExecuteMsg {
    CreateListing { create_msg: CreateListingMsg },
    AddFundsToSaleNative { listing_id: u64 },
    ChangeAsk { listing_id: u64, new_ask: Asset },
    ChangeWhitelistedBuyer { listing_id: u64, new_address: String },
    RemoveWhitelistedBuyer { listing_id: u64 },
    RemoveListing { listing_id: u64 },
    Finalize { listing_id: u64, seconds: u64 },
    RefundExpired { listing_id: u64 },
    CreateBucket { bucket_id: String },
    AddToBucket { bucket_id: String },
    RemoveBucket { bucket_id: String },
    BuyListing { listing_id: u64, bucket_id: String },
    WithdrawPurchased { bucket_id: String },
}

/// A call that arrives with a fungible-token deposit.
pub enum ReceiveMsg {
    CreateListingCw20 { create_msg: CreateListingMsg },
    AddFundsToSaleCw20 { listing_id: u64 },
    CreateBucketCw20 { bucket_id: String },
    AddToBucketCw20 { bucket_id: String },
}

/// A call that arrives with a non-fungible item.
pub enum ReceiveNftMsg {
    CreateListingCw721 { create_msg: CreateListingMsg },
    AddToListingCw721 { listing_id: u64 },
    CreateBucketCw721 { bucket_id: String },
    AddToBucketCw721 { bucket_id: String },
}

/// A read-only request.
pub enum QueryMsg {
    GetAdmin,
    GetConfig,
    GetListingInfo { listing_id: u64 },
    GetListingsByOwner { owner: String },
    GetAllListings,
    GetBuckets { bucket_owner: String },
    GetListingsForMarket,
    GetWhitelistedListings { address: String },
}

/// The market's configuration.
#[derive(PartialEq, Eq, Debug)]
pub struct Config {
    pub admin: String,
}

/// The answer to a [`QueryMsg`].
#[derive(PartialEq, Eq, Debug)]
pub enum QueryResponse {
    Admin(String),
    Config(Config),
    Listing(Listing),
    Listings(Vec<Listing>),
    Buckets(Vec<Bucket>),
}

/// The listing that `m` asks `seller` to open with `deposit`.
pub open spec fn create_action(seller: Seq<char>, deposit: AssetV, m: CreateListingMsg) -> Action {
    Action::CreateListing {
        seller,
        deposit,
        ask: m.ask@,
        whitelisted_buyer: opt_view(m.whitelisted_buyer),
        requested_id: m.id,
    }
}

/// The operation that `msg`, sent by `sender` with `funds` at time `now`, asks for.
pub open spec fn execute_action(sender: Seq<char>, funds: Seq<Coin>, now: u64, msg: ExecuteMsg) -> Result<Action, ContractError> {
    let deposit = native_from_coins_spec(funds);
    match msg {
        ExecuteMsg::CreateListing { create_msg } => match deposit {
            Ok(d) => Ok(create_action(sender, d, create_msg)),
            Err(e) => Err(e),
        },
        ExecuteMsg::AddFundsToSaleNative { listing_id } => match deposit {
            Ok(d) => Ok(Action::AddFundsToSale { id: listing_id, depositor: sender, amount: d }),
            Err(e) => Err(e),
        },
        ExecuteMsg::ChangeAsk { listing_id, new_ask } =>
            Ok(Action::ChangeAsk { id: listing_id, caller: sender, ask: new_ask@ }),
        ExecuteMsg::ChangeWhitelistedBuyer { listing_id, new_address } =>
            Ok(Action::SetWhitelistedBuyer { id: listing_id, caller: sender, whitelisted_buyer: Some(new_address@) }),
        ExecuteMsg::RemoveWhitelistedBuyer { listing_id } =>
            Ok(Action::SetWhitelistedBuyer { id: listing_id, caller: sender, whitelisted_buyer: None }),
        ExecuteMsg::RemoveListing { listing_id } => Ok(Action::RemoveListing { id: listing_id, caller: sender }),
        ExecuteMsg::Finalize { listing_id, seconds } =>
            Ok(Action::Finalize { id: listing_id, caller: sender, now, seconds }),
        ExecuteMsg::RefundExpired { listing_id } =>
            Ok(Action::RefundExpired { id: listing_id, caller: sender, now }),
        ExecuteMsg::CreateBucket { bucket_id } => match deposit {
            Ok(d) => Ok(Action::CreateBucket { owner: sender, bucket_id: bucket_id@, deposit: d }),
            Err(e) => Err(e),
        },
        ExecuteMsg::AddToBucket { bucket_id } => match deposit {
            Ok(d) => Ok(Action::AddToBucket { owner: sender, bucket_id: bucket_id@, amount: d }),
            Err(e) => Err(e),
        },
        ExecuteMsg::RemoveBucket { bucket_id } => Ok(Action::RemoveBucket { owner: sender, bucket_id: bucket_id@ }),
        ExecuteMsg::BuyListing { listing_id, bucket_id } =>
            Ok(Action::BuyListing { buyer: sender, listing_id, bucket_id: bucket_id@, now }),
        ExecuteMsg::WithdrawPurchased { bucket_id } =>
            Ok(Action::WithdrawPurchased { owner: sender, bucket_id: bucket_id@ }),
    }
}

/// The operation that `msg` asks for when it arrives with `deposit`, on behalf of `sender`.
pub open spec fn receive_action(sender: Seq<char>, deposit: AssetV, msg: ReceiveMsg) -> Action {
    match msg {
        ReceiveMsg::CreateListingCw20 { create_msg } => create_action(sender, deposit, create_msg),
        ReceiveMsg::AddFundsToSaleCw20 { listing_id } =>
            Action::AddFundsToSale { id: listing_id, depositor: sender, amount: deposit },
        ReceiveMsg::CreateBucketCw20 { bucket_id } =>
            Action::CreateBucket { owner: sender, bucket_id: bucket_id@, deposit },
        ReceiveMsg::AddToBucketCw20 { bucket_id } =>
            Action::AddToBucket { owner: sender, bucket_id: bucket_id@, amount: deposit },
    }
}

/// The operation that `msg` asks for when it arrives with an item, on behalf of `sender`.
pub open spec fn receive_nft_action(sender: Seq<char>, item: AssetV, msg: ReceiveNftMsg) -> Action {
    match msg {
        ReceiveNftMsg::CreateListingCw721 { create_msg } => create_action(sender, item, create_msg),
        ReceiveNftMsg::AddToListingCw721 { listing_id } =>
            Action::AddFundsToSale { id: listing_id, depositor: sender, amount: item },
        ReceiveNftMsg::CreateBucketCw721 { bucket_id } =>
            Action::CreateBucket { owner: sender, bucket_id: bucket_id@, deposit: item },
        ReceiveNftMsg::AddToBucketCw721 { bucket_id } =>
            Action::AddToBucket { owner: sender, bucket_id: bucket_id@, amount: item },
    }
}

/// A new, empty market; its administrator is `admin`, or the sender when absent.
pub fn instantiate(sender: String, admin: Option<String>) -> (r: Market)
    ensures
        r@ == (MarketV {
            admin: match admin { Some(a) => a@, None => sender@ },
            next_id: 0,
            listings: seq![],
            buckets: seq![],
        }),
        market_wf(r@),
{
    let a = match admin {
        Some(a) => a,
        None => sender,
    };
    Market::new(a)
}

/// An empty list of transfers.
fn no_transfers() -> (r: Vec<Transfer>)
    ensures
        transfers_view(r@) == Seq::<TransferV>::empty(),
{
    let r = Vec::new();
    assert(transfers_view(r@) =~= Seq::<TransferV>::empty());
    r
}

/// Opens the listing that `m` describes and reports no transfers.
fn create_listing_with(market: &mut Market, seller: &String, deposit: Asset, m: CreateListingMsg) -> (r: Result<Vec<Transfer>, ContractError>)
    requires
        market_wf(old(market)@),
    ensures
        market_wf(final(market)@),
        follows(old(market)@, apply(old(market)@, create_action(seller@, deposit@, m)), final(market)@, r),
{
    match market.create_listing(seller, deposit, m.ask, m.whitelisted_buyer, m.id) {
        Ok(_) => Ok(no_transfers()),
        Err(e) => Err(e),
    }
}

/// Carries out `msg`, sent by `sender` with `funds` attached at time `now`;
/// returns the transfers to perform.
pub fn execute(market: &mut Market, sender: &String, funds: &Vec<Coin>, now: u64, msg: ExecuteMsg) -> (r: Result<Vec<Transfer>, ContractError>)
    requires
        market_wf(old(market)@),
    ensures
        market_wf(final(market)@),
        match execute_action(sender@, funds@, now, msg) {
            Ok(a) => follows(old(market)@, apply(old(market)@, a), final(market)@, r),
            Err(e) => r == Err::<Vec<Transfer>, ContractError>(e) && final(market)@ == old(market)@,
        },
{
    match msg {
        ExecuteMsg::CreateListing { create_msg } => match native_from_coins(funds) {
            Ok(d) => create_listing_with(market, sender, d, create_msg),
            Err(e) => Err(e),
        },
        ExecuteMsg::AddFundsToSaleNative { listing_id } => match native_from_coins(funds) {
            Ok(d) => market.add_funds_to_sale(sender, listing_id, d),
            Err(e) => Err(e),
        },
        ExecuteMsg::ChangeAsk { listing_id, new_ask } => market.change_ask(sender, listing_id, new_ask),
        ExecuteMsg::ChangeWhitelistedBuyer { listing_id, new_address } =>
            market.set_whitelisted_buyer(sender, listing_id, Some(new_address)),
        ExecuteMsg::RemoveWhitelistedBuyer { listing_id } => market.set_whitelisted_buyer(sender, listing_id, None),
        ExecuteMsg::RemoveListing { listing_id } => market.remove_listing(sender, listing_id),
        ExecuteMsg::Finalize { listing_id, seconds } => market.finalize(sender, listing_id, now, seconds),
        ExecuteMsg::RefundExpired { listing_id } => market.refund_expired(sender, listing_id, now),
        ExecuteMsg::CreateBucket { bucket_id } => match native_from_coins(funds) {
            Ok(d) => market.create_bucket(sender, &bucket_id, d),
            Err(e) => Err(e),
        },
        ExecuteMsg::AddToBucket { bucket_id } => match native_from_coins(funds) {
            Ok(d) => market.add_to_bucket(sender, &bucket_id, d),
            Err(e) => Err(e),
        },
        ExecuteMsg::RemoveBucket { bucket_id } => market.remove_bucket(sender, &bucket_id),
        ExecuteMsg::BuyListing { listing_id, bucket_id } => market.buy_listing(sender, listing_id, &bucket_id, now),
        ExecuteMsg::WithdrawPurchased { bucket_id } => market.withdraw_purchased(sender, &bucket_id),
    }
}

/// Carries out `msg` for `sender`, who sent `amount` of the token issued by
/// `token_contract`; returns the transfers to perform.
pub fn execute_receive(
    market: &mut Market,
    token_contract: &String,
    sender: &String,
    amount: u128,
    msg: ReceiveMsg,
) -> (r: Result<Vec<Transfer>, ContractError>)
    requires
        market_wf(old(market)@),
    ensures
        market_wf(final(market)@),
        follows(
            old(market)@,
            apply(old(market)@, receive_action(sender@, AssetV::Cw20 { contract: token_contract@, amount: amount as nat }, msg)),
            final(market)@,
            r,
        ),
{
    let balance = Asset::Cw20 { contract: token_contract.clone(), amount };
    match msg {
        ReceiveMsg::CreateListingCw20 { create_msg } => create_listing_with(market, sender, balance, create_msg),
        ReceiveMsg::AddFundsToSaleCw20 { listing_id } => market.add_funds_to_sale(sender, listing_id, balance),
        ReceiveMsg::CreateBucketCw20 { bucket_id } => market.create_bucket(sender, &bucket_id, balance),
        ReceiveMsg::AddToBucketCw20 { bucket_id } => market.add_to_bucket(sender, &bucket_id, balance),
    }
}

/// Carries out `msg` for `sender`, who sent the item `token_id` of
/// `nft_contract`; returns the transfers to perform.
pub fn execute_receive_nft(
    market: &mut Market,
    nft_contract: &String,
    sender: &String,
    token_id: String,
    msg: ReceiveNftMsg,
) -> (r: Result<Vec<Transfer>, ContractError>)
    requires
        market_wf(old(market)@),
    ensures
        market_wf(final(market)@),
        follows(
            old(market)@,
            apply(old(market)@, receive_nft_action(sender@, AssetV::Nft { contract: nft_contract@, token_id: token_id@ }, msg)),
            final(market)@,
            r,
        ),
{
    let item = Asset::Nft { contract: nft_contract.clone(), token_id };
    match msg {
        ReceiveNftMsg::CreateListingCw721 { create_msg } => create_listing_with(market, sender, item, create_msg),
        ReceiveNftMsg::AddToListingCw721 { listing_id } => market.add_funds_to_sale(sender, listing_id, item),
        ReceiveNftMsg::CreateBucketCw721 { bucket_id } => market.create_bucket(sender, &bucket_id, item),
        ReceiveNftMsg::AddToBucketCw721 { bucket_id } => market.add_to_bucket(sender, &bucket_id, item),
    }
}

/// The answer to `msg` at time `now`.
pub fn query(market: &Market, now: u64, msg: QueryMsg) -> (r: Result<QueryResponse, ContractError>)
    ensures
        msg is GetAdmin ==> (r matches Ok(QueryResponse::Admin(admin)) && admin@ == market@.admin),
        msg is GetConfig ==> (r matches Ok(QueryResponse::Config(c)) && c.admin@ == market@.admin),
        msg matches QueryMsg::GetListingInfo { listing_id } ==> match crate::model::find_listing(market@.listings, listing_id) {
            Some(i) => r matches Ok(QueryResponse::Listing(l)) && 0 <= i < market@.listings.len() && l@ == market@.listings[i],
            None => r == Err::<QueryResponse, ContractError>(ContractError::NotFound),
        },
        msg matches QueryMsg::GetListingsByOwner { owner } ==> (r matches Ok(QueryResponse::Listings(v))
            && v@.map_values(|l: Listing| l@) == market@.listings.filter(|l: ListingV| l.seller == owner@)),
        msg is GetAllListings ==> (r matches Ok(QueryResponse::Listings(v))
            && v@.map_values(|l: Listing| l@) == market@.listings),
        msg matches QueryMsg::GetBuckets { bucket_owner } ==> (r matches Ok(QueryResponse::Buckets(v))
            && v@.map_values(|b: Bucket| b@) == market@.buckets.filter(|b: BucketV| b.owner == bucket_owner@)),
        msg is GetListingsForMarket ==> (r matches Ok(QueryResponse::Listings(v))
            && v@.map_values(|l: Listing| l@) == market@.listings.filter(|l: ListingV| purchasable(l, now))),
        msg matches QueryMsg::GetWhitelistedListings { address } ==> (r matches Ok(QueryResponse::Listings(v))
            && v@.map_values(|l: Listing| l@) == market@.listings.filter(|l: ListingV| l.whitelisted_buyer == Some(address@))),
{
    match msg {
        QueryMsg::GetAdmin => {
            let admin = market.admin().clone();
            assert(admin@ == market@.admin);
            Ok(QueryResponse::Admin(admin))
        },
        QueryMsg::GetConfig => Ok(QueryResponse::Config(Config { admin: market.admin().clone() })),
        QueryMsg::GetListingInfo { listing_id } => {
            proof { crate::model::lemma_find_listing(market@.listings, listing_id); }
            match market.listing_info(listing_id) {
                Ok(l) => Ok(QueryResponse::Listing(l)),
                Err(e) => Err(e),
            }
        },
        QueryMsg::GetListingsByOwner { owner } => {
            let ghost o = owner@;
            let f = ListingFilter::Owner(owner);
            assert((|l: ListingV| selects(f, l)) =~= (|l: ListingV| l.seller == o));
            Ok(QueryResponse::Listings(market.select_listings(&f)))
        },
        QueryMsg::GetAllListings => {
            let v = market.select_listings(&ListingFilter::All);
            proof { lemma_filter_all(market@.listings); }
            Ok(QueryResponse::Listings(v))
        },
        QueryMsg::GetBuckets { bucket_owner } => Ok(QueryResponse::Buckets(market.buckets_of(&bucket_owner))),
        QueryMsg::GetListingsForMarket => {
            let f = ListingFilter::ForSale(now);
            assert((|l: ListingV| selects(f, l)) =~= (|l: ListingV| purchasable(l, now)));
            Ok(QueryResponse::Listings(market.select_listings(&f)))
        },
        QueryMsg::GetWhitelistedListings { address } => {
            let ghost w = address@;
            let f = ListingFilter::Whitelisted(address);
            assert((|l: ListingV| selects(f, l)) =~= (|l: ListingV| l.whitelisted_buyer == Some(w)));
            Ok(QueryResponse::Listings(market.select_listings(&f)))
        },
    }
}

/// Keeping every listing keeps them all.
proof fn lemma_filter_all(s: Seq<ListingV>)
    ensures
        s.filter(|l: ListingV| selects(ListingFilter::All, l)) == s,
    decreases s.len(),
{
    reveal(Seq::filter);
    if s.len() > 0 {
        lemma_filter_all(s.drop_last());
        assert(s.drop_last().push(s.last()) =~= s);
    }
}

} // verus!
