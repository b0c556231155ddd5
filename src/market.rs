use vstd::prelude::*;

use crate::asset::{Asset, AssetV};
use crate::error::ContractError;
use crate::model::{
    purchasable,
    add_funds_to_sale_spec, add_to_bucket_spec, buy_listing_spec, change_ask_spec,
    create_bucket_spec, create_listing_spec, finalize_spec, find_bucket, find_listing, lemma_find_bucket, lemma_find_listing, market_wf,
    refund_expired_spec, remove_bucket_spec, remove_listing_spec, set_whitelisted_buyer_spec,
    withdraw_purchased_spec, MarketV, Step,
};
use crate::types::{
    opt_view, transfers_view, Bucket, BucketState, Listing, ListingStatus, Transfer,
    TransferV, ListingV, BucketV,
};

verus! {

/// Which listings a query asks for.
pub enum ListingFilter {
    All,
    /// Those of one seller.
    Owner(String),
    /// Those that can be bought at the given time.
    ForSale(u64),
    /// Those restricted to the given buyer.
    Whitelisted(String),
}

/// Whether `l` is among the listings that `f` asks for.
pub open spec fn selects(f: ListingFilter, l: ListingV) -> bool {
    match f {
        ListingFilter::All => true,
        ListingFilter::Owner(o) => l.seller == o@,
        ListingFilter::ForSale(now) => purchasable(l, now),
        ListingFilter::Whitelisted(w) => l.whitelisted_buyer == Some(w@),
    }
}

/// The configuration and both ledgers.
pub struct Market {
    admin: String,
    next_id: u64,
    listings: Vec<Listing>,
    buckets: Vec<Bucket>,
}

impl View for Market {
    type V = MarketV;

    closed spec fn view(&self) -> MarketV {
        MarketV {
            admin: self.admin@,
            next_id: self.next_id,
            listings: self.listings@.map_values(|l: Listing| l@),
            buckets: self.buckets@.map_values(|b: Bucket| b@),
        }
    }
}

/// `r` is what the step `s` prescribes: on success the market `after` and the
/// transfers; on failure the error, with the market left as `before`.
pub open spec fn follows(before: MarketV, s: Step, after: MarketV, r: Result<Vec<Transfer>, ContractError>) -> bool {
    match r {
        Ok(t) => s == Ok::<(MarketV, Seq<TransferV>), ContractError>((after, transfers_view(t@))),
        Err(e) => s == Err::<(MarketV, Seq<TransferV>), ContractError>(e) && after == before,
    }
}

impl Market {
    /// An empty market administered by `admin`.
    pub fn new(admin: String) -> (r: Market)
        ensures
            r@ == (MarketV { admin: admin@, next_id: 0, listings: seq![], buckets: seq![] }),
            market_wf(r@),
    {
        let r = Market { admin, next_id: 0, listings: Vec::new(), buckets: Vec::new() };
        assert(r@.listings =~= seq![]);
        assert(r@.buckets =~= seq![]);
        r
    }

    /// The administrator's address.
    pub fn admin(&self) -> (r: &String)
        ensures
            r@ == self@.admin,
    {
        &self.admin
    }

    /// The listings, in the order they were created.
    pub fn listings(&self) -> (r: &Vec<Listing>)
        ensures
            r@.map_values(|l: Listing| l@) == self@.listings,
    {
        &self.listings
    }

    /// The buckets, in the order they were created.
    pub fn buckets(&self) -> (r: &Vec<Bucket>)
        ensures
            r@.map_values(|b: Bucket| b@) == self@.buckets,
    {
        &self.buckets
    }

    /// The position of the listing `id`.
    fn find_listing(&self, id: u64) -> (r: Option<usize>)
        ensures
            match r {
                Some(i) => find_listing(self@.listings, id) == Some(i as int) && i < self.listings.len(),
                None => find_listing(self@.listings, id) is None,
            },
    {
        proof { lemma_find_listing(self@.listings, id); }
        let mut i: usize = self.listings.len();
        while i > 0
            invariant
                i <= self.listings.len(),
                forall|j: int| i <= j < self@.listings.len() ==> #[trigger] self@.listings[j].id != id,
            decreases i,
        {
            i = i - 1;
            if self.listings[i].id == id {
                assert(self@.listings[i as int].id == id);
                proof {
                    lemma_find_listing(self@.listings, id);
                    if let Some(k) = find_listing(self@.listings, id) {
                        assert(self@.listings[k].id == id);
                    }
                }
                return Some(i);
            }
        }
        None
    }

    /// The position of the bucket `id` of `owner`.
    fn find_bucket(&self, owner: &String, id: &String) -> (r: Option<usize>)
        ensures
            match r {
                Some(i) => find_bucket(self@.buckets, owner@, id@) == Some(i as int) && i < self.buckets.len(),
                None => find_bucket(self@.buckets, owner@, id@) is None,
            },
    {
        proof { lemma_find_bucket(self@.buckets, owner@, id@); }
        let mut i: usize = self.buckets.len();
        while i > 0
            invariant
                i <= self.buckets.len(),
                forall|j: int| i <= j < self@.buckets.len()
                    ==> !(#[trigger] self@.buckets[j].owner == owner@ && self@.buckets[j].id == id@),
            decreases i,
        {
            i = i - 1;
            if self.buckets[i].owner == *owner && self.buckets[i].id == *id {
                assert(self@.buckets[i as int].owner == owner@);
                proof {
                    lemma_find_bucket(self@.buckets, owner@, id@);
                    if let Some(k) = find_bucket(self@.buckets, owner@, id@) {
                        assert(self@.buckets[k].owner == owner@);
                    }
                }
                return Some(i);
            }
        }
        None
    }

    /// Opens a listing of `deposit` at `ask`, under `id` or the next free
    /// identifier; returns the listing's identifier.
    pub fn create_listing(
        &mut self,
        seller: &String,
        deposit: Asset,
        ask: Asset,
        whitelisted_buyer: Option<String>,
        id: Option<u64>,
    ) -> (r: Result<u64, ContractError>)
        requires
            market_wf(old(self)@),
        ensures
            market_wf(final(self)@),
            match r {
                Ok(n) => create_listing_spec(old(self)@, seller@, deposit@, ask@, opt_view(whitelisted_buyer), id)
                    == Ok::<(MarketV, Seq<TransferV>), ContractError>((final(self)@, seq![]))
                    && final(self)@.listings.last().id == n,
                Err(e) => create_listing_spec(old(self)@, seller@, deposit@, ask@, opt_view(whitelisted_buyer), id)
                    == Err::<(MarketV, Seq<TransferV>), ContractError>(e)
                    && final(self)@ == old(self)@,
            },
    {
        if deposit.is_zero() {
            return Err(ContractError::EmptyBalance);
        }
        let n = match id {
            Some(i) => {
                if self.find_listing(i).is_some() {
                    return Err(ContractError::IdTaken);
                }
                if i == u64::MAX {
                    return Err(ContractError::Overflow);
                }
                if i >= self.next_id {
                    self.next_id = i + 1;
                }
                i
            },
            None => {
                if self.next_id == u64::MAX {
                    return Err(ContractError::Overflow);
                }
                let i = self.next_id;
                self.next_id = i + 1;
                i
            },
        };
        proof { lemma_find_listing(old(self)@.listings, n); }
        let l = Listing {
            id: n,
            seller: seller.clone(),
            sale: deposit,
            ask,
            whitelisted_buyer,
            status: ListingStatus::Open,
        };
        self.listings.push(l);
        assert(self@.listings =~= old(self)@.listings.push(l@));
        Ok(n)
    }

    /// Closes an open listing of the caller's and returns its asset to them.
    pub fn remove_listing(&mut self, caller: &String, id: u64) -> (r: Result<Vec<Transfer>, ContractError>)
        requires
            market_wf(old(self)@),
        ensures
            market_wf(final(self)@),
            follows(old(self)@, remove_listing_spec(old(self)@, id, caller@), final(self)@, r),
    {
        let i = match self.find_listing(id) {
            None => return Err(ContractError::NotFound),
            Some(i) => i,
        };
        if self.listings[i].seller != *caller {
            return Err(ContractError::Unauthorized);
        }
        if self.listings[i].status != ListingStatus::Open {
            return Err(ContractError::NotOpen);
        }
        let l = self.listings.remove(i);
        assert(self@.listings =~= old(self)@.listings.remove(i as int));
        let t = vec![Transfer { recipient: l.seller, asset: l.sale }];
        assert(transfers_view(t@) =~= seq![TransferV { recipient: l.seller@, asset: l.sale@ }]);
        Ok(t)
    }

    /// Adds `amount` to the asset of an open fungible listing of the depositor's.
    pub fn add_funds_to_sale(&mut self, depositor: &String, id: u64, amount: Asset) -> (r: Result<Vec<Transfer>, ContractError>)
        requires
            market_wf(old(self)@),
        ensures
            market_wf(final(self)@),
            follows(old(self)@, add_funds_to_sale_spec(old(self)@, id, depositor@, amount@), final(self)@, r),
    {
        let i = match self.find_listing(id) {
            None => return Err(ContractError::NotFound),
            Some(i) => i,
        };
        if self.listings[i].seller != *depositor {
            return Err(ContractError::Unauthorized);
        }
        if self.listings[i].status != ListingStatus::Open {
            return Err(ContractError::NotOpen);
        }
        if self.listings[i].sale.is_nft() {
            return Err(ContractError::NftAlreadyListed);
        }
        let sum = match self.listings[i].sale.add(&amount) {
            Err(e) => return Err(e),
            Ok(s) => s,
        };
        self.listings[i].sale = sum;
        assert(self@.listings =~= old(self)@.listings.update(i as int, self@.listings[i as int]));
        let t = Vec::new();
        assert(transfers_view(t@) =~= seq![]);
        Ok(t)
    }

    /// Sets the ask of an open listing of the caller's.
    pub fn change_ask(&mut self, caller: &String, id: u64, ask: Asset) -> (r: Result<Vec<Transfer>, ContractError>)
        requires
            market_wf(old(self)@),
        ensures
            market_wf(final(self)@),
            follows(old(self)@, change_ask_spec(old(self)@, id, caller@, ask@), final(self)@, r),
    {
        let i = match self.find_listing(id) {
            None => return Err(ContractError::NotFound),
            Some(i) => i,
        };
        if self.listings[i].seller != *caller {
            return Err(ContractError::Unauthorized);
        }
        if self.listings[i].status != ListingStatus::Open {
            return Err(ContractError::NotOpen);
        }
        self.listings[i].ask = ask;
        assert(self@.listings =~= old(self)@.listings.update(i as int, self@.listings[i as int]));
        let t = Vec::new();
        assert(transfers_view(t@) =~= seq![]);
        Ok(t)
    }

    /// Restricts a listing of the caller's to one buyer, or lifts the restriction.
    pub fn set_whitelisted_buyer(&mut self, caller: &String, id: u64, buyer: Option<String>) -> (r: Result<Vec<Transfer>, ContractError>)
        requires
            market_wf(old(self)@),
        ensures
            market_wf(final(self)@),
            follows(old(self)@, set_whitelisted_buyer_spec(old(self)@, id, caller@, opt_view(buyer)), final(self)@, r),
    {
        let i = match self.find_listing(id) {
            None => return Err(ContractError::NotFound),
            Some(i) => i,
        };
        if self.listings[i].seller != *caller {
            return Err(ContractError::Unauthorized);
        }
        self.listings[i].whitelisted_buyer = buyer;
        assert(self@.listings =~= old(self)@.listings.update(i as int, self@.listings[i as int]));
        let t = Vec::new();
        assert(transfers_view(t@) =~= seq![]);
        Ok(t)
    }

    /// Starts the countdown of an open listing of the caller's: from `now + seconds`
    /// on it can no longer be bought and may be refunded.
    pub fn finalize(&mut self, caller: &String, id: u64, now: u64, seconds: u64) -> (r: Result<Vec<Transfer>, ContractError>)
        requires
            market_wf(old(self)@),
        ensures
            market_wf(final(self)@),
            follows(old(self)@, finalize_spec(old(self)@, id, caller@, now, seconds), final(self)@, r),
    {
        let i = match self.find_listing(id) {
            None => return Err(ContractError::NotFound),
            Some(i) => i,
        };
        if self.listings[i].seller != *caller {
            return Err(ContractError::Unauthorized);
        }
        if self.listings[i].status != ListingStatus::Open {
            return Err(ContractError::AlreadyFinalized);
        }
        let deadline = match now.checked_add(seconds) {
            None => return Err(ContractError::Overflow),
            Some(d) => d,
        };
        self.listings[i].status = ListingStatus::Finalized { deadline };
        assert(self@.listings =~= old(self)@.listings.update(i as int, self@.listings[i as int]));
        let t = Vec::new();
        assert(transfers_view(t@) =~= seq![]);
        Ok(t)
    }

    /// Closes an expired listing of the caller's and returns its asset to them.
    pub fn refund_expired(&mut self, caller: &String, id: u64, now: u64) -> (r: Result<Vec<Transfer>, ContractError>)
        requires
            market_wf(old(self)@),
        ensures
            market_wf(final(self)@),
            follows(old(self)@, refund_expired_spec(old(self)@, id, caller@, now), final(self)@, r),
    {
        let i = match self.find_listing(id) {
            None => return Err(ContractError::NotFound),
            Some(i) => i,
        };
        if self.listings[i].seller != *caller {
            return Err(ContractError::Unauthorized);
        }
        match self.listings[i].status {
            ListingStatus::Open => return Err(ContractError::NotFinalized),
            ListingStatus::Finalized { deadline } => {
                if now < deadline {
                    return Err(ContractError::NotExpired);
                }
            },
        }
        let l = self.listings.remove(i);
        assert(self@.listings =~= old(self)@.listings.remove(i as int));
        let t = vec![Transfer { recipient: l.seller, asset: l.sale }];
        assert(transfers_view(t@) =~= seq![TransferV { recipient: l.seller@, asset: l.sale@ }]);
        Ok(t)
    }

    /// Opens the bucket `id` of `owner` with `deposit` in escrow.
    pub fn create_bucket(&mut self, owner: &String, id: &String, deposit: Asset) -> (r: Result<Vec<Transfer>, ContractError>)
        requires
            market_wf(old(self)@),
        ensures
            market_wf(final(self)@),
            follows(old(self)@, create_bucket_spec(old(self)@, owner@, id@, deposit@), final(self)@, r),
    {
        if self.find_bucket(owner, id).is_some() {
            return Err(ContractError::BucketExists);
        }
        if deposit.is_zero() {
            return Err(ContractError::EmptyBalance);
        }
        proof { lemma_find_bucket(old(self)@.buckets, owner@, id@); }
        let b = Bucket { owner: owner.clone(), id: id.clone(), state: BucketState::Open { balance: deposit } };
        self.buckets.push(b);
        assert(self@.buckets =~= old(self)@.buckets.push(b@));
        let t = Vec::new();
        assert(transfers_view(t@) =~= seq![]);
        Ok(t)
    }

    /// Adds `amount` to the escrow of an open fungible bucket.
    pub fn add_to_bucket(&mut self, owner: &String, id: &String, amount: Asset) -> (r: Result<Vec<Transfer>, ContractError>)
        requires
            market_wf(old(self)@),
        ensures
            market_wf(final(self)@),
            follows(old(self)@, add_to_bucket_spec(old(self)@, owner@, id@, amount@), final(self)@, r),
    {
        let i = match self.find_bucket(owner, id) {
            None => return Err(ContractError::NotFound),
            Some(i) => i,
        };
        let sum = match &self.buckets[i].state {
            BucketState::Consumed { .. } => return Err(ContractError::NotOpen),
            BucketState::Open { balance } => {
                if balance.is_nft() {
                    return Err(ContractError::NftAlreadyHeld);
                }
                match balance.add(&amount) {
                    Err(e) => return Err(e),
                    Ok(s) => s,
                }
            },
        };
        self.buckets[i].state = BucketState::Open { balance: sum };
        assert(self@.buckets =~= old(self)@.buckets.update(i as int, self@.buckets[i as int]));
        let t = Vec::new();
        assert(transfers_view(t@) =~= seq![]);
        Ok(t)
    }

    /// Closes an open bucket and returns its escrow to its owner.
    pub fn remove_bucket(&mut self, owner: &String, id: &String) -> (r: Result<Vec<Transfer>, ContractError>)
        requires
            market_wf(old(self)@),
        ensures
            market_wf(final(self)@),
            follows(old(self)@, remove_bucket_spec(old(self)@, owner@, id@), final(self)@, r),
    {
        let i = match self.find_bucket(owner, id) {
            None => return Err(ContractError::NotFound),
            Some(i) => i,
        };
        if let BucketState::Consumed { .. } = &self.buckets[i].state {
            return Err(ContractError::NotOpen);
        }
        let b = self.buckets.remove(i);
        assert(self@.buckets =~= old(self)@.buckets.remove(i as int));
        match b.state {
            BucketState::Open { balance } => {
                let t = vec![Transfer { recipient: owner.clone(), asset: balance }];
                assert(transfers_view(t@) =~= seq![TransferV { recipient: owner@, asset: balance@ }]);
                Ok(t)
            },
            BucketState::Consumed { .. } => {
                assert(false);
                Err(ContractError::NotOpen)
            },
        }
    }

    /// Releases what a consumed bucket bought, and its surplus, to its owner,
    /// and deletes the bucket.
    pub fn withdraw_purchased(&mut self, owner: &String, id: &String) -> (r: Result<Vec<Transfer>, ContractError>)
        requires
            market_wf(old(self)@),
        ensures
            market_wf(final(self)@),
            follows(old(self)@, withdraw_purchased_spec(old(self)@, owner@, id@), final(self)@, r),
    {
        let i = match self.find_bucket(owner, id) {
            None => return Err(ContractError::NotFound),
            Some(i) => i,
        };
        if let BucketState::Open { .. } = &self.buckets[i].state {
            return Err(ContractError::NotPurchased);
        }
        let b = self.buckets.remove(i);
        assert(self@.buckets =~= old(self)@.buckets.remove(i as int));
        match b.state {
            BucketState::Consumed { purchased, surplus } => {
                let ghost p = purchased@;
                let mut t = vec![Transfer { recipient: owner.clone(), asset: purchased }];
                let ghost first = seq![TransferV { recipient: owner@, asset: p }];
                assert(transfers_view(t@) =~= first);
                match surplus {
                    Some(s) => {
                        let ghost sv = s@;
                        t.push(Transfer { recipient: owner.clone(), asset: s });
                        assert(transfers_view(t@) =~= first.push(TransferV { recipient: owner@, asset: sv }));
                    },
                    None => {},
                }
                Ok(t)
            },
            BucketState::Open { .. } => {
                assert(false);
                Err(ContractError::NotPurchased)
            },
        }
    }

    /// Swaps the bucket `bucket_id` of `buyer` for the listing `listing_id`:
    /// the seller is paid the ask, the bucket keeps the listed asset and any
    /// surplus for its owner to withdraw, and the listing is closed.
    pub fn buy_listing(&mut self, buyer: &String, listing_id: u64, bucket_id: &String, now: u64) -> (r: Result<Vec<Transfer>, ContractError>)
        requires
            market_wf(old(self)@),
        ensures
            market_wf(final(self)@),
            follows(old(self)@, buy_listing_spec(old(self)@, buyer@, listing_id, bucket_id@, now), final(self)@, r),
    {
        let li = match self.find_listing(listing_id) {
            None => return Err(ContractError::NotFound),
            Some(i) => i,
        };
        let purchasable = match self.listings[li].status {
            ListingStatus::Open => true,
            ListingStatus::Finalized { deadline } => now < deadline,
        };
        if !purchasable {
            return Err(ContractError::NotPurchasable);
        }
        match &self.listings[li].whitelisted_buyer {
            Some(w) => {
                if *w != *buyer {
                    return Err(ContractError::NotWhitelisted);
                }
            },
            None => {},
        }
        let bi = match self.find_bucket(buyer, bucket_id) {
            None => return Err(ContractError::NotFound),
            Some(i) => i,
        };
        let surplus = match &self.buckets[bi].state {
            BucketState::Consumed { .. } => return Err(ContractError::NotOpen),
            BucketState::Open { balance } => {
                if !balance.meets_or_exceeds(&self.listings[li].ask) {
                    return Err(ContractError::InsufficientFunds);
                }
                balance.surplus(&self.listings[li].ask)
            },
        };
        let l = self.listings.remove(li);
        assert(self@.listings =~= old(self)@.listings.remove(li as int));
        self.buckets[bi].state = BucketState::Consumed { purchased: l.sale, surplus };
        assert(self@.buckets =~= old(self)@.buckets.update(bi as int, self@.buckets[bi as int]));
        let t = vec![Transfer { recipient: l.seller, asset: l.ask }];
        assert(transfers_view(t@) =~= seq![TransferV { recipient: l.seller@, asset: l.ask@ }]);
        Ok(t)
    }

    /// The listing `id`.
    pub fn listing_info(&self, id: u64) -> (r: Result<Listing, ContractError>)
        ensures
            match r {
                Ok(l) => find_listing(self@.listings, id) matches Some(i) && l@ == self@.listings[i],
                Err(e) => find_listing(self@.listings, id) is None && e == ContractError::NotFound,
            },
    {
        match self.find_listing(id) {
            None => Err(ContractError::NotFound),
            Some(i) => Ok(self.listings[i].duplicate()),
        }
    }

    /// The listings that `f` asks for, in ledger order.
    pub fn select_listings(&self, f: &ListingFilter) -> (r: Vec<Listing>)
        ensures
            r@.map_values(|l: Listing| l@) == self@.listings.filter(|l: ListingV| selects(*f, l)),
    {
        let ghost p = |l: ListingV| selects(*f, l);
        let mut r: Vec<Listing> = Vec::new();
        let mut i: usize = 0;
        while i < self.listings.len()
            invariant
                i <= self.listings.len(),
                p == (|l: ListingV| selects(*f, l)),
                r@.map_values(|l: Listing| l@) == self@.listings.take(i as int).filter(p),
            decreases self.listings.len() - i,
        {
            let l = &self.listings[i];
            let keep = match f {
                ListingFilter::All => true,
                ListingFilter::Owner(o) => l.seller == *o,
                ListingFilter::ForSale(now) => match l.status {
                    ListingStatus::Open => true,
                    ListingStatus::Finalized { deadline } => *now < deadline,
                },
                ListingFilter::Whitelisted(w) => match &l.whitelisted_buyer {
                    Some(b) => *b == *w,
                    None => false,
                },
            };
            assert(self@.listings.take(i + 1).drop_last() =~= self@.listings.take(i as int));
            assert(self@.listings.take(i + 1).last() == l@);
            assert(keep == p(l@));
            reveal(Seq::filter);
            assert(self@.listings.take(i + 1).filter(p) == if p(l@) {
                self@.listings.take(i as int).filter(p).push(l@)
            } else {
                self@.listings.take(i as int).filter(p)
            });
            let ghost before = r@.map_values(|l: Listing| l@);
            if keep {
                r.push(l.duplicate());
                assert(r@.map_values(|l: Listing| l@) =~= before.push(l@));
            }
            i = i + 1;
        }
        assert(self@.listings.take(self.listings.len() as int) =~= self@.listings);
        r
    }

    /// The buckets of `owner`, in ledger order.
    pub fn buckets_of(&self, owner: &String) -> (r: Vec<Bucket>)
        ensures
            r@.map_values(|b: Bucket| b@) == self@.buckets.filter(|b: BucketV| b.owner == owner@),
    {
        let ghost p = |b: BucketV| b.owner == owner@;
        let mut r: Vec<Bucket> = Vec::new();
        let mut i: usize = 0;
        while i < self.buckets.len()
            invariant
                i <= self.buckets.len(),
                p == (|b: BucketV| b.owner == owner@),
                r@.map_values(|b: Bucket| b@) == self@.buckets.take(i as int).filter(p),
            decreases self.buckets.len() - i,
        {
            let b = &self.buckets[i];
            assert(self@.buckets.take(i + 1).drop_last() =~= self@.buckets.take(i as int));
            assert(self@.buckets.take(i + 1).last() == b@);
            reveal(Seq::filter);
            assert(self@.buckets.take(i + 1).filter(p) == if p(b@) {
                self@.buckets.take(i as int).filter(p).push(b@)
            } else {
                self@.buckets.take(i as int).filter(p)
            });
            let ghost before = r@.map_values(|b: Bucket| b@);
            if b.owner == *owner {
                r.push(b.duplicate());
                assert(r@.map_values(|b: Bucket| b@) =~= before.push(b@));
            }
            i = i + 1;
        }
        assert(self@.buckets.take(self.buckets.len() as int) =~= self@.buckets);
        r
    }

    /// The identifier that the next listing created without one will get.
    pub fn next_id(&self) -> (r: u64)
        ensures
            r == self@.next_id,
    {
        self.next_id
    }

    /// Whether the ledgers are well formed.
    fn check_wf(&self) -> (r: bool)
        ensures
            r == market_wf(self@),
    {
        let n = self.listings.len();
        let mut i: usize = 0;
        while i < n
            invariant
                n == self.listings.len(),
                i <= n,
                forall|a: int, b: int| 0 <= a < i && 0 <= b < i && a != b
                    ==> #[trigger] self@.listings[a].id != #[trigger] self@.listings[b].id,
                forall|a: int| 0 <= a < i ==> #[trigger] self@.listings[a].id < self.next_id,
            decreases n - i,
        {
            if self.listings[i].id >= self.next_id {
                assert(self@.listings[i as int].id >= self.next_id);
                return false;
            }
            let mut j: usize = 0;
            while j < i
                invariant
                    n == self.listings.len(),
                    j <= i < n,
                    forall|b: int| 0 <= b < j ==> #[trigger] self@.listings[b].id != self@.listings[i as int].id,
                decreases i - j,
            {
                if self.listings[j].id == self.listings[i].id {
                    assert(self@.listings[j as int].id == self@.listings[i as int].id);
                    return false;
                }
                j = j + 1;
            }
            i = i + 1;
        }
        let n = self.buckets.len();
        let mut i: usize = 0;
        while i < n
            invariant
                n == self.buckets.len(),
                i <= n,
                forall|a: int, b: int| 0 <= a < i && 0 <= b < i && a != b
                    ==> !(#[trigger] self@.buckets[a].owner == #[trigger] self@.buckets[b].owner
                    && self@.buckets[a].id == self@.buckets[b].id),
            decreases n - i,
        {
            let mut j: usize = 0;
            while j < i
                invariant
                    n == self.buckets.len(),
                    j <= i < n,
                    forall|b: int| 0 <= b < j ==> !(#[trigger] self@.buckets[b].owner == self@.buckets[i as int].owner
                        && self@.buckets[b].id == self@.buckets[i as int].id),
                decreases i - j,
            {
                if self.buckets[j].owner == self.buckets[i].owner && self.buckets[j].id == self.buckets[i].id {
                    assert(self@.buckets[j as int].owner == self@.buckets[i as int].owner);
                    return false;
                }
                j = j + 1;
            }
            i = i + 1;
        }
        true
    }

    /// A market from stored parts; `None` when they are not well formed.
    pub fn restore(admin: String, next_id: u64, listings: Vec<Listing>, buckets: Vec<Bucket>) -> (r: Option<Market>)
        ensures
            ({
                let v = MarketV {
                    admin: admin@,
                    next_id,
                    listings: listings@.map_values(|l: Listing| l@),
                    buckets: buckets@.map_values(|b: Bucket| b@),
                };
                match r {
                    Some(m) => m@ == v && market_wf(v),
                    None => !market_wf(v),
                }
            }),
    {
        let m = Market { admin, next_id, listings, buckets };
        if m.check_wf() {
            Some(m)
        } else {
            None
        }
    }
}

} // verus!
