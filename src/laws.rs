use vstd::prelude::*;

use crate::asset::{lemma_add_units, lemma_surplus_units, units, units_opt, AssetV, Key};
use crate::error::ContractError;
use crate::model::{
    add_to_bucket_spec, apply, buy_listing_spec, deposit_of, find_bucket, find_listing,
    lemma_find_bucket, lemma_find_listing, market_wf, refund_expired_spec, remove_listing_spec,
    Action, MarketV,
};
use crate::types::{BucketStateV, BucketV, ListingStatus, ListingV, TransferV};

verus! {

/// Units of kind `k` in the assets of the listings.
pub open spec fn listing_units(s: Seq<ListingV>, k: Key) -> nat
    decreases s.len(),
{
    if s.len() == 0 { 0 } else { listing_units(s.drop_last(), k) + units(s.last().sale, k) }
}

/// Units of kind `k` that a bucket holds.
pub open spec fn bucket_held(b: BucketV, k: Key) -> nat {
    match b.state {
        BucketStateV::Open { balance } => units(balance, k),
        BucketStateV::Consumed { purchased, surplus } => units(purchased, k) + units_opt(surplus, k),
    }
}

/// Units of kind `k` in the buckets.
pub open spec fn bucket_units(s: Seq<BucketV>, k: Key) -> nat
    decreases s.len(),
{
    if s.len() == 0 { 0 } else { bucket_units(s.drop_last(), k) + bucket_held(s.last(), k) }
}

/// Units of kind `k` that a list of transfers releases.
pub open spec fn transfer_units(t: Seq<TransferV>, k: Key) -> nat
    decreases t.len(),
{
    if t.len() == 0 { 0 } else { transfer_units(t.drop_last(), k) + units(t.last().asset, k) }
}

/// Units of kind `k` held in escrow by the market.
pub open spec fn held(m: MarketV, k: Key) -> nat {
    listing_units(m.listings, k) + bucket_units(m.buckets, k)
}

proof fn lemma_listing_units_push(s: Seq<ListingV>, x: ListingV, k: Key)
    ensures
        listing_units(s.push(x), k) == listing_units(s, k) + units(x.sale, k),
{
    assert(s.push(x).drop_last() =~= s);
}

proof fn lemma_listing_units_remove(s: Seq<ListingV>, i: int, k: Key)
    requires
        0 <= i < s.len(),
    ensures
        listing_units(s.remove(i), k) + units(s[i].sale, k) == listing_units(s, k),
    decreases s.len(),
{
    if i == s.len() - 1 {
        assert(s.remove(i) =~= s.drop_last());
    } else {
        lemma_listing_units_remove(s.drop_last(), i, k);
        assert(s.remove(i).drop_last() =~= s.drop_last().remove(i));
    }
}

proof fn lemma_listing_units_update(s: Seq<ListingV>, i: int, x: ListingV, k: Key)
    requires
        0 <= i < s.len(),
    ensures
        listing_units(s.update(i, x), k) + units(s[i].sale, k) == listing_units(s, k) + units(x.sale, k),
    decreases s.len(),
{
    if i == s.len() - 1 {
        assert(s.update(i, x).drop_last() =~= s.drop_last());
    } else {
        lemma_listing_units_update(s.drop_last(), i, x, k);
        assert(s.update(i, x).drop_last() =~= s.drop_last().update(i, x));
    }
}

proof fn lemma_bucket_units_push(s: Seq<BucketV>, x: BucketV, k: Key)
    ensures
        bucket_units(s.push(x), k) == bucket_units(s, k) + bucket_held(x, k),
{
    assert(s.push(x).drop_last() =~= s);
}

proof fn lemma_bucket_units_remove(s: Seq<BucketV>, i: int, k: Key)
    requires
        0 <= i < s.len(),
    ensures
        bucket_units(s.remove(i), k) + bucket_held(s[i], k) == bucket_units(s, k),
    decreases s.len(),
{
    if i == s.len() - 1 {
        assert(s.remove(i) =~= s.drop_last());
    } else {
        lemma_bucket_units_remove(s.drop_last(), i, k);
        assert(s.remove(i).drop_last() =~= s.drop_last().remove(i));
    }
}

proof fn lemma_bucket_units_update(s: Seq<BucketV>, i: int, x: BucketV, k: Key)
    requires
        0 <= i < s.len(),
    ensures
        bucket_units(s.update(i, x), k) + bucket_held(s[i], k) == bucket_units(s, k) + bucket_held(x, k),
    decreases s.len(),
{
    if i == s.len() - 1 {
        assert(s.update(i, x).drop_last() =~= s.drop_last());
    } else {
        lemma_bucket_units_update(s.drop_last(), i, x, k);
        assert(s.update(i, x).drop_last() =~= s.drop_last().update(i, x));
    }
}

proof fn lemma_transfer_units_one(x: TransferV, k: Key)
    ensures
        transfer_units(seq![x], k) == units(x.asset, k),
{
    assert(seq![x].drop_last() =~= Seq::<TransferV>::empty());
    assert(transfer_units(Seq::<TransferV>::empty(), k) == 0);
    assert(seq![x].last() == x);
}

proof fn lemma_transfer_units_two(x: TransferV, y: TransferV, k: Key)
    ensures
        transfer_units(seq![x].push(y), k) == units(x.asset, k) + units(y.asset, k),
{
    lemma_transfer_units_one(x, k);
    assert(seq![x].push(y).drop_last() =~= seq![x]);
}

/// No operation creates or destroys value: for every kind of asset, what the
/// market holds afterwards plus what it released equals what it held before
/// plus what the operation deposited.
pub proof fn law_step_conserves_value(m: MarketV, a: Action, k: Key)
    requires
        apply(m, a) is Ok,
    ensures
        held(apply(m, a)->Ok_0.0, k) + transfer_units(apply(m, a)->Ok_0.1, k)
            == held(m, k) + units_opt(deposit_of(a), k),
{
    let s = apply(m, a)->Ok_0;
    match a {
        Action::CreateListing { .. } => {
            lemma_listing_units_push(m.listings, s.0.listings.last(), k);
            assert(s.0.listings =~= m.listings.push(s.0.listings.last()));
        },
        Action::AddFundsToSale { id, amount, .. } => {
            let i = find_listing(m.listings, id)->Some_0;
            lemma_find_listing(m.listings, id);
            lemma_add_units(m.listings[i].sale, amount, k);
            lemma_listing_units_update(m.listings, i, s.0.listings[i], k);
        },
        Action::ChangeAsk { id, .. } => {
            let i = find_listing(m.listings, id)->Some_0;
            lemma_find_listing(m.listings, id);
            lemma_listing_units_update(m.listings, i, s.0.listings[i], k);
        },
        Action::SetWhitelistedBuyer { id, .. } => {
            let i = find_listing(m.listings, id)->Some_0;
            lemma_find_listing(m.listings, id);
            lemma_listing_units_update(m.listings, i, s.0.listings[i], k);
        },
        Action::Finalize { id, .. } => {
            let i = find_listing(m.listings, id)->Some_0;
            lemma_find_listing(m.listings, id);
            lemma_listing_units_update(m.listings, i, s.0.listings[i], k);
        },
        Action::RemoveListing { id, .. } => {
            let i = find_listing(m.listings, id)->Some_0;
            lemma_find_listing(m.listings, id);
            lemma_listing_units_remove(m.listings, i, k);
            lemma_transfer_units_one(s.1[0], k);
        },
        Action::RefundExpired { id, .. } => {
            let i = find_listing(m.listings, id)->Some_0;
            lemma_find_listing(m.listings, id);
            lemma_listing_units_remove(m.listings, i, k);
            lemma_transfer_units_one(s.1[0], k);
        },
        Action::CreateBucket { .. } => {
            lemma_bucket_units_push(m.buckets, s.0.buckets.last(), k);
            assert(s.0.buckets =~= m.buckets.push(s.0.buckets.last()));
        },
        Action::AddToBucket { owner, bucket_id: id, amount } => {
            let i = find_bucket(m.buckets, owner, id)->Some_0;
            lemma_find_bucket(m.buckets, owner, id);
            if let BucketStateV::Open { balance } = m.buckets[i].state {
                lemma_add_units(balance, amount, k);
            }
            lemma_bucket_units_update(m.buckets, i, s.0.buckets[i], k);
        },
        Action::RemoveBucket { owner, bucket_id: id } => {
            let i = find_bucket(m.buckets, owner, id)->Some_0;
            lemma_find_bucket(m.buckets, owner, id);
            lemma_bucket_units_remove(m.buckets, i, k);
            lemma_transfer_units_one(s.1[0], k);
        },
        Action::WithdrawPurchased { owner, bucket_id: id } => {
            let i = find_bucket(m.buckets, owner, id)->Some_0;
            lemma_find_bucket(m.buckets, owner, id);
            lemma_bucket_units_remove(m.buckets, i, k);
            if let BucketStateV::Consumed { purchased, surplus } = m.buckets[i].state {
                let x = TransferV { recipient: owner, asset: purchased };
                lemma_transfer_units_one(x, k);
                if let Some(y) = surplus {
                    lemma_transfer_units_two(x, TransferV { recipient: owner, asset: y }, k);
                }
            }
        },
        Action::BuyListing { buyer, listing_id, bucket_id, .. } => {
            let li = find_listing(m.listings, listing_id)->Some_0;
            let bi = find_bucket(m.buckets, buyer, bucket_id)->Some_0;
            lemma_find_listing(m.listings, listing_id);
            lemma_find_bucket(m.buckets, buyer, bucket_id);
            lemma_listing_units_remove(m.listings, li, k);
            lemma_bucket_units_update(m.buckets, bi, s.0.buckets[bi], k);
            if let BucketStateV::Open { balance } = m.buckets[bi].state {
                lemma_surplus_units(balance, m.listings[li].ask, k);
            }
            lemma_transfer_units_one(s.1[0], k);
        },
    }
}

/// The market and the released transfers after running `acts` on `m` in order;
/// a refused operation changes nothing.
pub open spec fn run(m: MarketV, acts: Seq<Action>) -> (MarketV, Seq<TransferV>)
    decreases acts.len(),
{
    if acts.len() == 0 {
        (m, seq![])
    } else {
        let (m1, t1) = run(m, acts.drop_last());
        match apply(m1, acts.last()) {
            Ok((m2, t)) => (m2, t1 + t),
            Err(_) => (m1, t1),
        }
    }
}

/// Units of kind `k` deposited by the operations of `acts` that succeeded.
pub open spec fn run_deposits(m: MarketV, acts: Seq<Action>, k: Key) -> nat
    decreases acts.len(),
{
    if acts.len() == 0 {
        0
    } else {
        let m1 = run(m, acts.drop_last()).0;
        run_deposits(m, acts.drop_last(), k) + if apply(m1, acts.last()) is Ok {
            units_opt(deposit_of(acts.last()), k)
        } else {
            0
        }
    }
}

proof fn lemma_transfer_units_concat(a: Seq<TransferV>, b: Seq<TransferV>, k: Key)
    ensures
        transfer_units(a + b, k) == transfer_units(a, k) + transfer_units(b, k),
    decreases b.len(),
{
    if b.len() == 0 {
        assert(a + b =~= a);
    } else {
        lemma_transfer_units_concat(a, b.drop_last(), k);
        assert((a + b).drop_last() =~= a + b.drop_last());
    }
}

/// Over any sequence of operations, what the market holds plus all it released
/// equals what it held at the start plus all that was deposited.
pub proof fn law_run_conserves_value(m: MarketV, acts: Seq<Action>, k: Key)
    ensures
        held(run(m, acts).0, k) + transfer_units(run(m, acts).1, k) == held(m, k) + run_deposits(m, acts, k),
    decreases acts.len(),
{
    if acts.len() == 0 {
        assert(transfer_units(Seq::<TransferV>::empty(), k) == 0);
    } else {
        law_run_conserves_value(m, acts.drop_last(), k);
        let (m1, t1) = run(m, acts.drop_last());
        if let Ok((m2, t)) = apply(m1, acts.last()) {
            law_step_conserves_value(m1, acts.last(), k);
            lemma_transfer_units_concat(t1, t, k);
        }
    }
}

proof fn lemma_find_listing_removed(s: Seq<ListingV>, id: u64, i: int)
    requires
        0 <= i < s.len(),
        s[i].id == id,
        forall|a: int, b: int| 0 <= a < s.len() && 0 <= b < s.len() && a != b ==> #[trigger] s[a].id != #[trigger] s[b].id,
    ensures
        find_listing(s.remove(i), id) is None,
{
    lemma_find_listing(s.remove(i), id);
    if let Some(j) = find_listing(s.remove(i), id) {
        if j < i {
            assert(s.remove(i)[j] == s[j]);
        } else {
            assert(s.remove(i)[j] == s[j + 1]);
        }
    }
}

proof fn lemma_find_bucket_update(s: Seq<BucketV>, owner: Seq<char>, id: Seq<char>, i: int, x: BucketV)
    requires
        0 <= i < s.len(),
        x.owner == s[i].owner,
        x.id == s[i].id,
    ensures
        find_bucket(s.update(i, x), owner, id) == find_bucket(s, owner, id),
    decreases s.len(),
{
    if i < s.len() - 1 {
        assert(s.update(i, x).drop_last() =~= s.drop_last().update(i, x));
        lemma_find_bucket_update(s.drop_last(), owner, id, i, x);
    } else {
        assert(s.update(i, x).drop_last() =~= s.drop_last());
    }
}

/// A listing is bought at most once: once a purchase of it succeeded, every
/// further attempt, by anyone with any bucket at any time, finds no listing.
pub proof fn law_no_double_match(
    m: MarketV,
    buyer: Seq<char>,
    listing_id: u64,
    bucket_id: Seq<char>,
    now: u64,
    other_buyer: Seq<char>,
    other_bucket: Seq<char>,
    later: u64,
)
    requires
        market_wf(m),
        buy_listing_spec(m, buyer, listing_id, bucket_id, now) is Ok,
    ensures
        buy_listing_spec(buy_listing_spec(m, buyer, listing_id, bucket_id, now)->Ok_0.0, other_buyer, listing_id, other_bucket, later)
            == Err::<(MarketV, Seq<TransferV>), ContractError>(ContractError::NotFound),
{
    let i = find_listing(m.listings, listing_id)->Some_0;
    lemma_find_listing(m.listings, listing_id);
    lemma_find_listing_removed(m.listings, listing_id, i);
}

/// A listing restricted to buyer `w` refuses every other buyer.
pub proof fn law_whitelist_refuses_others(
    m: MarketV,
    listing_id: u64,
    w: Seq<char>,
    buyer: Seq<char>,
    bucket_id: Seq<char>,
    now: u64,
)
    requires
        find_listing(m.listings, listing_id) is Some,
        m.listings[find_listing(m.listings, listing_id)->Some_0].whitelisted_buyer == Some(w),
        crate::model::purchasable(m.listings[find_listing(m.listings, listing_id)->Some_0], now),
        buyer != w,
    ensures
        buy_listing_spec(m, buyer, listing_id, bucket_id, now)
            == Err::<(MarketV, Seq<TransferV>), ContractError>(ContractError::NotWhitelisted),
{
}

/// The whitelisted buyer of a purchasable listing buys it with an open bucket
/// of their own that covers the ask.
pub proof fn law_whitelisted_buyer_succeeds(m: MarketV, listing_id: u64, w: Seq<char>, bucket_id: Seq<char>, now: u64)
    requires
        find_listing(m.listings, listing_id) is Some,
        m.listings[find_listing(m.listings, listing_id)->Some_0].whitelisted_buyer == Some(w),
        crate::model::purchasable(m.listings[find_listing(m.listings, listing_id)->Some_0], now),
        find_bucket(m.buckets, w, bucket_id) is Some,
        m.buckets[find_bucket(m.buckets, w, bucket_id)->Some_0].state matches BucketStateV::Open { balance }
            && crate::asset::meets_spec(balance, m.listings[find_listing(m.listings, listing_id)->Some_0].ask),
    ensures
        buy_listing_spec(m, w, listing_id, bucket_id, now) is Ok,
{
}

/// A finalized listing with deadline `d` cannot be bought from `d` on, and its
/// seller cannot have it refunded before `d` but can from `d` on.
pub proof fn law_expiry_gate(m: MarketV, listing_id: u64, buyer: Seq<char>, bucket_id: Seq<char>, now: u64)
    requires
        find_listing(m.listings, listing_id) is Some,
        m.listings[find_listing(m.listings, listing_id)->Some_0].status is Finalized,
    ensures
        ({
            let l = m.listings[find_listing(m.listings, listing_id)->Some_0];
            let d = l.status->deadline;
            &&& now >= d ==> buy_listing_spec(m, buyer, listing_id, bucket_id, now)
                == Err::<(MarketV, Seq<TransferV>), ContractError>(ContractError::NotPurchasable)
            &&& now < d ==> refund_expired_spec(m, listing_id, l.seller, now)
                == Err::<(MarketV, Seq<TransferV>), ContractError>(ContractError::NotExpired)
            &&& now >= d ==> refund_expired_spec(m, listing_id, l.seller, now) is Ok
        }),
{
}

/// Removing a listing a second time finds nothing.
pub proof fn law_remove_listing_twice(m: MarketV, listing_id: u64, caller: Seq<char>)
    requires
        market_wf(m),
        remove_listing_spec(m, listing_id, caller) is Ok,
    ensures
        remove_listing_spec(remove_listing_spec(m, listing_id, caller)->Ok_0.0, listing_id, caller)
            == Err::<(MarketV, Seq<TransferV>), ContractError>(ContractError::NotFound),
{
    let i = find_listing(m.listings, listing_id)->Some_0;
    lemma_find_listing(m.listings, listing_id);
    lemma_find_listing_removed(m.listings, listing_id, i);
}

/// A bucket that has bought a listing takes no more deposits.
pub proof fn law_consumed_bucket_refuses_deposits(
    m: MarketV,
    buyer: Seq<char>,
    listing_id: u64,
    bucket_id: Seq<char>,
    now: u64,
    amount: AssetV,
)
    requires
        buy_listing_spec(m, buyer, listing_id, bucket_id, now) is Ok,
    ensures
        add_to_bucket_spec(buy_listing_spec(m, buyer, listing_id, bucket_id, now)->Ok_0.0, buyer, bucket_id, amount)
            == Err::<(MarketV, Seq<TransferV>), ContractError>(ContractError::NotOpen),
{
    let bi = find_bucket(m.buckets, buyer, bucket_id)->Some_0;
    let m2 = buy_listing_spec(m, buyer, listing_id, bucket_id, now)->Ok_0.0;
    lemma_find_bucket(m.buckets, buyer, bucket_id);
    lemma_find_bucket_update(m.buckets, buyer, bucket_id, bi, m2.buckets[bi]);
}

} // verus!
