use juno_vaults::asset::{native_from_coins, Asset, Coin};
use juno_vaults::error::ContractError;
use juno_vaults::market::{ListingFilter, Market};
use juno_vaults::msg::{
    execute, execute_receive, execute_receive_nft, instantiate, query, Config, CreateListingMsg,
    ExecuteMsg, QueryMsg, QueryResponse, ReceiveMsg, ReceiveNftMsg,
};
use juno_vaults::types::{BucketState, ListingStatus, Transfer};

fn s(x: &str) -> String {
    x.to_string()
}

fn native(denom: &str, amount: u128) -> Asset {
    Asset::Native { denom: s(denom), amount }
}

fn cw20(contract: &str, amount: u128) -> Asset {
    Asset::Cw20 { contract: s(contract), amount }
}

fn nft(contract: &str, token_id: &str) -> Asset {
    Asset::Nft { contract: s(contract), token_id: s(token_id) }
}

fn coins(denom: &str, amount: u128) -> Vec<Coin> {
    vec![Coin { denom: s(denom), amount }]
}

fn transfer(to: &str, asset: Asset) -> Transfer {
    Transfer { recipient: s(to), asset }
}

fn market() -> Market {
    instantiate(s("admin"), None)
}

/// A market holding listing 0 of "seller": 100 atom for 50 usdc.
fn market_with_listing() -> Market {
    let mut m = market();
    let id = m.create_listing(&s("seller"), native("atom", 100), native("usdc", 50), None, None);
    assert_eq!(id, Ok(0));
    m
}

fn bucket_state(m: &Market, owner: &str, id: &str) -> Option<BucketState> {
    m.buckets()
        .iter()
        .find(|b| b.owner == owner && b.id == id)
        .map(|b| b.duplicate().state)
}

#[test]
fn scenario_native_listing_bought_with_surplus() {
    let mut m = market_with_listing();
    assert_eq!(m.create_bucket(&s("buyer"), &s("b1"), native("usdc", 60)), Ok(vec![]));
    let paid = m.buy_listing(&s("buyer"), 0, &s("b1"), 1000);
    assert_eq!(paid, Ok(vec![transfer("seller", native("usdc", 50))]));
    assert_eq!(
        bucket_state(&m, "buyer", "b1"),
        Some(BucketState::Consumed { purchased: native("atom", 100), surplus: Some(native("usdc", 10)) })
    );
    assert!(m.listings().is_empty());
    let out = m.withdraw_purchased(&s("buyer"), &s("b1"));
    assert_eq!(
        out,
        Ok(vec![transfer("buyer", native("atom", 100)), transfer("buyer", native("usdc", 10))])
    );
    assert!(m.buckets().is_empty());
}

#[test]
fn exact_payment_leaves_no_surplus() {
    let mut m = market_with_listing();
    m.create_bucket(&s("buyer"), &s("b1"), native("usdc", 50)).unwrap();
    m.buy_listing(&s("buyer"), 0, &s("b1"), 0).unwrap();
    assert_eq!(
        bucket_state(&m, "buyer", "b1"),
        Some(BucketState::Consumed { purchased: native("atom", 100), surplus: None })
    );
    assert_eq!(m.withdraw_purchased(&s("buyer"), &s("b1")), Ok(vec![transfer("buyer", native("atom", 100))]));
}

#[test]
fn scenario_expired_listing_refunded_not_bought() {
    let t: u64 = 1_700_000_000;
    let mut m = market_with_listing();
    m.create_bucket(&s("buyer"), &s("b1"), native("usdc", 60)).unwrap();
    assert_eq!(m.finalize(&s("seller"), 0, t, 3600), Ok(vec![]));
    assert_eq!(m.listings()[0].status, ListingStatus::Finalized { deadline: t + 3600 });
    assert_eq!(m.buy_listing(&s("buyer"), 0, &s("b1"), t + 3601), Err(ContractError::NotPurchasable));
    assert_eq!(m.refund_expired(&s("seller"), 0, t + 3601), Ok(vec![transfer("seller", native("atom", 100))]));
    assert!(m.listings().is_empty());
}

#[test]
fn scenario_nft_listing_refuses_top_up() {
    let mut m = market();
    let id = m.create_listing(&s("seller"), nft("contractX", "42"), native("usdc", 5), None, None).unwrap();
    assert_eq!(m.add_funds_to_sale(&s("seller"), id, nft("contractX", "43")), Err(ContractError::NftAlreadyListed));
    assert_eq!(m.add_funds_to_sale(&s("seller"), id, native("usdc", 1)), Err(ContractError::NftAlreadyListed));
    assert_eq!(m.add_funds_to_sale(&s("seller"), id, cw20("tok", 1)), Err(ContractError::NftAlreadyListed));
    assert_eq!(m.listings()[0].sale, nft("contractX", "42"));
}

#[test]
fn second_purchase_finds_no_listing() {
    let mut m = market_with_listing();
    m.create_bucket(&s("buyer"), &s("b1"), native("usdc", 50)).unwrap();
    m.create_bucket(&s("other"), &s("b2"), native("usdc", 500)).unwrap();
    m.buy_listing(&s("buyer"), 0, &s("b1"), 0).unwrap();
    assert_eq!(m.buy_listing(&s("other"), 0, &s("b2"), 0), Err(ContractError::NotFound));
    assert_eq!(m.buy_listing(&s("buyer"), 0, &s("b1"), 0), Err(ContractError::NotFound));
}

#[test]
fn whitelist_admits_only_the_named_buyer() {
    let mut m = market();
    let id = m
        .create_listing(&s("seller"), native("atom", 10), native("usdc", 5), Some(s("w")), None)
        .unwrap();
    m.create_bucket(&s("x"), &s("b"), native("usdc", 5)).unwrap();
    m.create_bucket(&s("w"), &s("b"), native("usdc", 5)).unwrap();
    assert_eq!(m.buy_listing(&s("x"), id, &s("b"), 0), Err(ContractError::NotWhitelisted));
    assert_eq!(m.buy_listing(&s("w"), id, &s("b"), 0), Ok(vec![transfer("seller", native("usdc", 5))]));
}

#[test]
fn whitelist_can_be_changed_and_cleared() {
    let mut m = market_with_listing();
    m.create_bucket(&s("x"), &s("b"), native("usdc", 50)).unwrap();
    assert_eq!(m.set_whitelisted_buyer(&s("x"), 0, Some(s("y"))), Err(ContractError::Unauthorized));
    m.set_whitelisted_buyer(&s("seller"), 0, Some(s("y"))).unwrap();
    assert_eq!(m.buy_listing(&s("x"), 0, &s("b"), 0), Err(ContractError::NotWhitelisted));
    m.set_whitelisted_buyer(&s("seller"), 0, None).unwrap();
    assert!(m.buy_listing(&s("x"), 0, &s("b"), 0).is_ok());
}

#[test]
fn deadline_is_exclusive_for_purchase_and_inclusive_for_refund() {
    let mut m = market_with_listing();
    m.create_bucket(&s("buyer"), &s("b1"), native("usdc", 50)).unwrap();
    m.finalize(&s("seller"), 0, 100, 50).unwrap();
    assert_eq!(m.refund_expired(&s("seller"), 0, 149), Err(ContractError::NotExpired));
    assert_eq!(m.buy_listing(&s("buyer"), 0, &s("b1"), 150), Err(ContractError::NotPurchasable));
    assert_eq!(m.refund_expired(&s("seller"), 0, 150), Ok(vec![transfer("seller", native("atom", 100))]));
}

#[test]
fn finalized_listing_can_be_bought_before_deadline() {
    let mut m = market_with_listing();
    m.create_bucket(&s("buyer"), &s("b1"), native("usdc", 50)).unwrap();
    m.finalize(&s("seller"), 0, 100, 50).unwrap();
    assert!(m.buy_listing(&s("buyer"), 0, &s("b1"), 149).is_ok());
}

#[test]
fn remove_listing_twice() {
    let mut m = market_with_listing();
    assert_eq!(m.remove_listing(&s("seller"), 0), Ok(vec![transfer("seller", native("atom", 100))]));
    assert_eq!(m.remove_listing(&s("seller"), 0), Err(ContractError::NotFound));
}

#[test]
fn consumed_bucket_refuses_deposits_and_removal() {
    let mut m = market_with_listing();
    m.create_bucket(&s("buyer"), &s("b1"), native("usdc", 50)).unwrap();
    m.buy_listing(&s("buyer"), 0, &s("b1"), 0).unwrap();
    assert_eq!(m.add_to_bucket(&s("buyer"), &s("b1"), native("usdc", 1)), Err(ContractError::NotOpen));
    assert_eq!(m.remove_bucket(&s("buyer"), &s("b1")), Err(ContractError::NotOpen));
}

fn held_native(m: &Market, denom: &str) -> u128 {
    let units = |a: &Asset| match a {
        Asset::Native { denom: d, amount } if d == denom => *amount,
        _ => 0,
    };
    let mut total = 0;
    for l in m.listings() {
        total += units(&l.sale);
    }
    for b in m.buckets() {
        match &b.state {
            BucketState::Open { balance } => total += units(balance),
            BucketState::Consumed { purchased, surplus } => {
                total += units(purchased);
                if let Some(x) = surplus {
                    total += units(x);
                }
            }
        }
    }
    total
}

fn released_native(t: &[Transfer], denom: &str) -> u128 {
    t.iter()
        .map(|x| match &x.asset {
            Asset::Native { denom: d, amount } if d == denom => *amount,
            _ => 0,
        })
        .sum()
}

#[test]
fn value_is_conserved_over_a_run() {
    let mut m = market();
    let mut released: Vec<Transfer> = Vec::new();
    m.create_listing(&s("seller"), native("atom", 100), native("usdc", 50), None, None).unwrap();
    m.add_funds_to_sale(&s("seller"), 0, native("atom", 20)).unwrap();
    m.create_listing(&s("seller"), native("usdc", 7), native("atom", 1), None, None).unwrap();
    m.create_bucket(&s("buyer"), &s("b1"), native("usdc", 40)).unwrap();
    m.add_to_bucket(&s("buyer"), &s("b1"), native("usdc", 25)).unwrap();
    m.create_bucket(&s("buyer"), &s("b2"), native("atom", 3)).unwrap();
    assert!(m.add_to_bucket(&s("buyer"), &s("b2"), native("usdc", 1)).is_err());
    released.extend(m.buy_listing(&s("buyer"), 0, &s("b1"), 0).unwrap());
    released.extend(m.withdraw_purchased(&s("buyer"), &s("b1")).unwrap());
    released.extend(m.buy_listing(&s("buyer"), 1, &s("b2"), 0).unwrap());
    let deposited_atom: u128 = 100 + 20 + 3;
    let deposited_usdc: u128 = 7 + 40 + 25;
    assert_eq!(held_native(&m, "atom") + released_native(&released, "atom"), deposited_atom);
    assert_eq!(held_native(&m, "usdc") + released_native(&released, "usdc"), deposited_usdc);
    released.extend(m.withdraw_purchased(&s("buyer"), &s("b2")).unwrap());
    assert_eq!(held_native(&m, "atom"), 0);
    assert_eq!(released_native(&released, "atom"), deposited_atom);
    assert_eq!(released_native(&released, "usdc"), deposited_usdc);
}

#[test]
fn empty_deposits_are_refused() {
    let mut m = market();
    assert_eq!(
        m.create_listing(&s("seller"), native("atom", 0), native("usdc", 1), None, None),
        Err(ContractError::EmptyBalance)
    );
    assert_eq!(m.create_bucket(&s("b"), &s("x"), cw20("tok", 0)), Err(ContractError::EmptyBalance));
    assert!(m.listings().is_empty());
    assert!(m.buckets().is_empty());
}

#[test]
fn bucket_identifiers_are_scoped_by_owner() {
    let mut m = market();
    m.create_bucket(&s("alice"), &s("x"), native("usdc", 1)).unwrap();
    assert_eq!(m.create_bucket(&s("alice"), &s("x"), native("usdc", 2)), Err(ContractError::BucketExists));
    assert_eq!(m.create_bucket(&s("bob"), &s("x"), native("usdc", 2)), Ok(vec![]));
    assert_eq!(m.remove_bucket(&s("bob"), &s("x")), Ok(vec![transfer("bob", native("usdc", 2))]));
    assert_eq!(m.remove_bucket(&s("bob"), &s("x")), Err(ContractError::NotFound));
    assert_eq!(bucket_state(&m, "alice", "x"), Some(BucketState::Open { balance: native("usdc", 1) }));
}

#[test]
fn seller_only_operations() {
    let mut m = market_with_listing();
    assert_eq!(m.change_ask(&s("x"), 0, native("usdc", 1)), Err(ContractError::Unauthorized));
    assert_eq!(m.remove_listing(&s("x"), 0), Err(ContractError::Unauthorized));
    assert_eq!(m.finalize(&s("x"), 0, 0, 1), Err(ContractError::Unauthorized));
    assert_eq!(m.add_funds_to_sale(&s("x"), 0, native("atom", 1)), Err(ContractError::Unauthorized));
    m.finalize(&s("seller"), 0, 0, 1).unwrap();
    assert_eq!(m.refund_expired(&s("x"), 0, 5), Err(ContractError::Unauthorized));
}

#[test]
fn finalized_listing_is_frozen() {
    let mut m = market_with_listing();
    assert_eq!(m.refund_expired(&s("seller"), 0, 5), Err(ContractError::NotFinalized));
    m.finalize(&s("seller"), 0, 0, 10).unwrap();
    assert_eq!(m.finalize(&s("seller"), 0, 0, 10), Err(ContractError::AlreadyFinalized));
    assert_eq!(m.change_ask(&s("seller"), 0, native("usdc", 1)), Err(ContractError::NotOpen));
    assert_eq!(m.remove_listing(&s("seller"), 0), Err(ContractError::NotOpen));
    assert_eq!(m.add_funds_to_sale(&s("seller"), 0, native("atom", 1)), Err(ContractError::NotOpen));
}

#[test]
fn finalize_deadline_overflow() {
    let mut m = market_with_listing();
    assert_eq!(m.finalize(&s("seller"), 0, u64::MAX, 1), Err(ContractError::Overflow));
    assert_eq!(m.listings()[0].status, ListingStatus::Open);
}

#[test]
fn change_ask_takes_effect() {
    let mut m = market_with_listing();
    m.create_bucket(&s("buyer"), &s("b1"), native("usdc", 50)).unwrap();
    m.change_ask(&s("seller"), 0, native("usdc", 51)).unwrap();
    assert_eq!(m.buy_listing(&s("buyer"), 0, &s("b1"), 0), Err(ContractError::InsufficientFunds));
    m.change_ask(&s("seller"), 0, cw20("tok", 1)).unwrap();
    assert_eq!(m.buy_listing(&s("buyer"), 0, &s("b1"), 0), Err(ContractError::InsufficientFunds));
}

#[test]
fn buy_needs_an_open_bucket_of_the_buyer() {
    let mut m = market_with_listing();
    m.create_bucket(&s("alice"), &s("b"), native("usdc", 50)).unwrap();
    assert_eq!(m.buy_listing(&s("bob"), 0, &s("b"), 0), Err(ContractError::NotFound));
    assert_eq!(m.buy_listing(&s("alice"), 7, &s("b"), 0), Err(ContractError::NotFound));
    assert_eq!(m.withdraw_purchased(&s("alice"), &s("b")), Err(ContractError::NotPurchased));
}

#[test]
fn top_ups_must_match_the_escrowed_kind() {
    let mut m = market_with_listing();
    assert_eq!(m.add_funds_to_sale(&s("seller"), 0, native("juno", 1)), Err(ContractError::AssetMismatch));
    assert_eq!(m.add_funds_to_sale(&s("seller"), 0, cw20("tok", 1)), Err(ContractError::AssetMismatch));
    m.add_funds_to_sale(&s("seller"), 0, native("atom", 5)).unwrap();
    assert_eq!(m.listings()[0].sale, native("atom", 105));
    m.create_bucket(&s("b"), &s("n"), nft("c", "1")).unwrap();
    assert_eq!(m.add_to_bucket(&s("b"), &s("n"), nft("c", "2")), Err(ContractError::NftAlreadyHeld));
    m.create_bucket(&s("b"), &s("t"), cw20("tok", 1)).unwrap();
    assert_eq!(m.add_to_bucket(&s("b"), &s("t"), cw20("other", 1)), Err(ContractError::AssetMismatch));
    assert_eq!(m.add_to_bucket(&s("b"), &s("t"), cw20("tok", u128::MAX)), Err(ContractError::Overflow));
    assert_eq!(m.add_to_bucket(&s("b"), &s("missing"), cw20("tok", 1)), Err(ContractError::NotFound));
    m.add_to_bucket(&s("b"), &s("t"), cw20("tok", 4)).unwrap();
    assert_eq!(bucket_state(&m, "b", "t"), Some(BucketState::Open { balance: cw20("tok", 5) }));
}

#[test]
fn listing_identifiers() {
    let mut m = market();
    assert_eq!(m.create_listing(&s("a"), native("atom", 1), native("usdc", 1), None, Some(5)), Ok(5));
    assert_eq!(m.create_listing(&s("a"), native("atom", 1), native("usdc", 1), None, Some(5)), Err(ContractError::IdTaken));
    assert_eq!(m.create_listing(&s("a"), native("atom", 1), native("usdc", 1), None, None), Ok(6));
    assert_eq!(m.create_listing(&s("a"), native("atom", 1), native("usdc", 1), None, Some(2)), Ok(2));
    assert_eq!(m.create_listing(&s("a"), native("atom", 1), native("usdc", 1), None, None), Ok(7));
    assert_eq!(
        m.create_listing(&s("a"), native("atom", 1), native("usdc", 1), None, Some(u64::MAX)),
        Err(ContractError::Overflow)
    );
}

#[test]
fn nft_for_nft_swap() {
    let mut m = market();
    let id = m.create_listing(&s("seller"), nft("cx", "42"), nft("cy", "7"), None, None).unwrap();
    m.create_bucket(&s("buyer"), &s("b"), nft("cy", "8")).unwrap();
    assert_eq!(m.buy_listing(&s("buyer"), id, &s("b"), 0), Err(ContractError::InsufficientFunds));
    m.create_bucket(&s("buyer"), &s("c"), nft("cy", "7")).unwrap();
    assert_eq!(m.buy_listing(&s("buyer"), id, &s("c"), 0), Ok(vec![transfer("seller", nft("cy", "7"))]));
    assert_eq!(m.withdraw_purchased(&s("buyer"), &s("c")), Ok(vec![transfer("buyer", nft("cx", "42"))]));
}

#[test]
fn asset_arithmetic() {
    assert_eq!(native("atom", 2).add(&native("atom", 3)), Ok(native("atom", 5)));
    assert_eq!(cw20("t", 2).add(&cw20("t", 3)), Ok(cw20("t", 5)));
    assert_eq!(native("atom", 2).add(&native("usdc", 3)), Err(ContractError::AssetMismatch));
    assert_eq!(native("t", 2).add(&cw20("t", 3)), Err(ContractError::AssetMismatch));
    assert_eq!(nft("c", "1").add(&nft("c", "2")), Err(ContractError::DuplicateNft));
    assert_eq!(native("atom", u128::MAX).add(&native("atom", 1)), Err(ContractError::Overflow));
    assert!(native("atom", 5).meets_or_exceeds(&native("atom", 5)));
    assert!(!native("atom", 4).meets_or_exceeds(&native("atom", 5)));
    assert!(!native("atom", 9).meets_or_exceeds(&cw20("atom", 5)));
    assert!(nft("c", "1").meets_or_exceeds(&nft("c", "1")));
    assert!(!nft("c", "1").meets_or_exceeds(&nft("c", "2")));
    assert_eq!(native("atom", 9).surplus(&native("atom", 5)), Some(native("atom", 4)));
    assert_eq!(native("atom", 5).surplus(&native("atom", 5)), None);
    assert!(native("x", 0).is_zero());
    assert!(!nft("c", "1").is_zero());
}

#[test]
fn coins_become_one_native_asset() {
    assert_eq!(native_from_coins(&coins("atom", 3)), Ok(native("atom", 3)));
    assert_eq!(native_from_coins(&vec![]), Err(ContractError::EmptyBalance));
    let two = vec![Coin { denom: s("a"), amount: 1 }, Coin { denom: s("b"), amount: 1 }];
    assert_eq!(native_from_coins(&two), Err(ContractError::AssetMismatch));
}

#[test]
fn execute_routes_native_calls() {
    let mut m = instantiate(s("creator"), Some(s("boss")));
    let create = ExecuteMsg::CreateListing {
        create_msg: CreateListingMsg { id: None, ask: native("usdc", 50), whitelisted_buyer: None },
    };
    assert_eq!(execute(&mut m, &s("seller"), &coins("atom", 100), 0, create), Ok(vec![]));
    let bucket = ExecuteMsg::CreateBucket { bucket_id: s("b1") };
    assert_eq!(execute(&mut m, &s("buyer"), &vec![], 0, bucket), Err(ContractError::EmptyBalance));
    let bucket = ExecuteMsg::CreateBucket { bucket_id: s("b1") };
    execute(&mut m, &s("buyer"), &coins("usdc", 50), 0, bucket).unwrap();
    let buy = ExecuteMsg::BuyListing { listing_id: 0, bucket_id: s("b1") };
    assert_eq!(execute(&mut m, &s("buyer"), &vec![], 0, buy), Ok(vec![transfer("seller", native("usdc", 50))]));
    let withdraw = ExecuteMsg::WithdrawPurchased { bucket_id: s("b1") };
    assert_eq!(execute(&mut m, &s("buyer"), &vec![], 0, withdraw), Ok(vec![transfer("buyer", native("atom", 100))]));
    assert_eq!(query(&m, 0, QueryMsg::GetAdmin), Ok(QueryResponse::Admin(s("boss"))));
    assert_eq!(query(&m, 0, QueryMsg::GetConfig), Ok(QueryResponse::Config(Config { admin: s("boss") })));
}

#[test]
fn execute_receive_routes_token_deposits() {
    let mut m = market();
    let create = ReceiveMsg::CreateListingCw20 {
        create_msg: CreateListingMsg { id: Some(3), ask: native("usdc", 1), whitelisted_buyer: None },
    };
    assert_eq!(execute_receive(&mut m, &s("tok"), &s("seller"), 10, create), Ok(vec![]));
    execute_receive(&mut m, &s("tok"), &s("seller"), 5, ReceiveMsg::AddFundsToSaleCw20 { listing_id: 3 }).unwrap();
    assert_eq!(m.listings()[0].sale, cw20("tok", 15));
    execute_receive(&mut m, &s("tok"), &s("buyer"), 5, ReceiveMsg::CreateBucketCw20 { bucket_id: s("b") }).unwrap();
    execute_receive(&mut m, &s("tok"), &s("buyer"), 2, ReceiveMsg::AddToBucketCw20 { bucket_id: s("b") }).unwrap();
    assert_eq!(bucket_state(&m, "buyer", "b"), Some(BucketState::Open { balance: cw20("tok", 7) }));
}

#[test]
fn execute_receive_nft_routes_item_deposits() {
    let mut m = market();
    let create = ReceiveNftMsg::CreateListingCw721 {
        create_msg: CreateListingMsg { id: None, ask: native("usdc", 1), whitelisted_buyer: None },
    };
    assert_eq!(execute_receive_nft(&mut m, &s("cx"), &s("seller"), s("42"), create), Ok(vec![]));
    assert_eq!(
        execute_receive_nft(&mut m, &s("cx"), &s("seller"), s("43"), ReceiveNftMsg::AddToListingCw721 { listing_id: 0 }),
        Err(ContractError::NftAlreadyListed)
    );
    execute_receive_nft(&mut m, &s("cy"), &s("buyer"), s("1"), ReceiveNftMsg::CreateBucketCw721 { bucket_id: s("b") })
        .unwrap();
    assert_eq!(
        execute_receive_nft(&mut m, &s("cy"), &s("buyer"), s("2"), ReceiveNftMsg::AddToBucketCw721 { bucket_id: s("b") }),
        Err(ContractError::NftAlreadyHeld)
    );
}

#[test]
fn queries_select_listings_and_buckets() {
    let mut m = market();
    m.create_listing(&s("a"), native("atom", 1), native("usdc", 1), None, None).unwrap();
    m.create_listing(&s("b"), native("atom", 2), native("usdc", 1), Some(s("w")), None).unwrap();
    m.create_listing(&s("a"), native("atom", 3), native("usdc", 1), None, None).unwrap();
    m.finalize(&s("a"), 2, 0, 10).unwrap();
    m.create_bucket(&s("a"), &s("x"), native("usdc", 1)).unwrap();
    m.create_bucket(&s("b"), &s("x"), native("usdc", 1)).unwrap();
    let ids = |r: Result<QueryResponse, ContractError>| match r {
        Ok(QueryResponse::Listings(v)) => v.iter().map(|l| l.id).collect::<Vec<u64>>(),
        other => panic!("unexpected answer {:?}", other),
    };
    assert_eq!(ids(query(&m, 0, QueryMsg::GetAllListings)), vec![0, 1, 2]);
    assert_eq!(ids(query(&m, 0, QueryMsg::GetListingsByOwner { owner: s("a") })), vec![0, 2]);
    assert_eq!(ids(query(&m, 9, QueryMsg::GetListingsForMarket)), vec![0, 1, 2]);
    assert_eq!(ids(query(&m, 10, QueryMsg::GetListingsForMarket)), vec![0, 1]);
    assert_eq!(ids(query(&m, 0, QueryMsg::GetWhitelistedListings { address: s("w") })), vec![1]);
    assert_eq!(m.select_listings(&ListingFilter::Owner(s("b"))).len(), 1);
    match query(&m, 0, QueryMsg::GetBuckets { bucket_owner: s("b") }) {
        Ok(QueryResponse::Buckets(v)) => {
            assert_eq!(v.len(), 1);
            assert_eq!(v[0].owner, "b");
        }
        other => panic!("unexpected answer {:?}", other),
    }
    match query(&m, 0, QueryMsg::GetListingInfo { listing_id: 1 }) {
        Ok(QueryResponse::Listing(l)) => assert_eq!(l.whitelisted_buyer, Some(s("w"))),
        other => panic!("unexpected answer {:?}", other),
    }
    assert_eq!(query(&m, 0, QueryMsg::GetListingInfo { listing_id: 9 }), Err(ContractError::NotFound));
}
