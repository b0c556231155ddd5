use vstd::prelude::*;

use crate::error::ContractError;

verus! {

/// A coin of the chain's own bank module.
#[derive(PartialEq, Eq, Debug)]
pub struct Coin {
    pub denom: String,
    pub amount: u128,
}

/// An amount of value held in escrow.
#[derive(PartialEq, Eq, Debug)]
pub enum Asset {
    /// Native coin of one denomination.
    Native { denom: String, amount: u128 },
    /// A fungible token balance, identified by its issuing contract.
    Cw20 { contract: String, amount: u128 },
    /// One non-fungible item.
    Nft { contract: String, token_id: String },
}

/// Mathematical model of an [`Asset`].
pub enum AssetV {
    Native { denom: Seq<char>, amount: nat },
    Cw20 { contract: Seq<char>, amount: nat },
    Nft { contract: Seq<char>, token_id: Seq<char> },
}

/// One kind of value: a denomination, a token contract, or a single item.
pub enum Key {
    Native(Seq<char>),
    Cw20(Seq<char>),
    Nft(Seq<char>, Seq<char>),
}

impl View for Asset {
    type V = AssetV;

    open spec fn view(&self) -> AssetV {
        match self {
            Asset::Native { denom, amount } => AssetV::Native { denom: denom@, amount: *amount as nat },
            Asset::Cw20 { contract, amount } => AssetV::Cw20 { contract: contract@, amount: *amount as nat },
            Asset::Nft { contract, token_id } => AssetV::Nft { contract: contract@, token_id: token_id@ },
        }
    }
}

/// How many units of kind `k` the asset `a` holds.
pub open spec fn units(a: AssetV, k: Key) -> nat {
    match (a, k) {
        (AssetV::Native { denom, amount }, Key::Native(d)) => if denom == d { amount } else { 0 },
        (AssetV::Cw20 { contract, amount }, Key::Cw20(c)) => if contract == c { amount } else { 0 },
        (AssetV::Nft { contract, token_id }, Key::Nft(c, t)) => if contract == c && token_id == t { 1 } else { 0 },
        _ => 0,
    }
}

/// Units of kind `k` in an optional asset.
pub open spec fn units_opt(a: Option<AssetV>, k: Key) -> nat {
    match a {
        Some(x) => units(x, k),
        None => 0,
    }
}

/// The sum of two assets of the same kind.
pub open spec fn add_spec(a: AssetV, b: AssetV) -> Result<AssetV, ContractError> {
    match (a, b) {
        (AssetV::Native { denom: d1, amount: x }, AssetV::Native { denom: d2, amount: y }) =>
            if d1 != d2 {
                Err(ContractError::AssetMismatch)
            } else if x + y > u128::MAX {
                Err(ContractError::Overflow)
            } else {
                Ok(AssetV::Native { denom: d1, amount: x + y })
            },
        (AssetV::Cw20 { contract: c1, amount: x }, AssetV::Cw20 { contract: c2, amount: y }) =>
            if c1 != c2 {
                Err(ContractError::AssetMismatch)
            } else if x + y > u128::MAX {
                Err(ContractError::Overflow)
            } else {
                Ok(AssetV::Cw20 { contract: c1, amount: x + y })
            },
        (AssetV::Nft { .. }, AssetV::Nft { .. }) => Err(ContractError::DuplicateNft),
        _ => Err(ContractError::AssetMismatch),
    }
}

/// Whether `have` is of the kind of `want` and at least as much.
pub open spec fn meets_spec(have: AssetV, want: AssetV) -> bool {
    match (have, want) {
        (AssetV::Native { denom: d1, amount: x }, AssetV::Native { denom: d2, amount: y }) =>
            d1 == d2 && x >= y,
        (AssetV::Cw20 { contract: c1, amount: x }, AssetV::Cw20 { contract: c2, amount: y }) =>
            c1 == c2 && x >= y,
        (AssetV::Nft { contract: c1, token_id: t1 }, AssetV::Nft { contract: c2, token_id: t2 }) =>
            c1 == c2 && t1 == t2,
        _ => false,
    }
}

/// Whether the asset holds no value. An item always holds value.
pub open spec fn is_zero_spec(a: AssetV) -> bool {
    match a {
        AssetV::Native { amount, .. } => amount == 0,
        AssetV::Cw20 { amount, .. } => amount == 0,
        AssetV::Nft { .. } => false,
    }
}

/// What remains of `have` once `want` is taken from it; `None` when nothing does.
pub open spec fn surplus_spec(have: AssetV, want: AssetV) -> Option<AssetV> {
    match (have, want) {
        (AssetV::Native { denom, amount: x }, AssetV::Native { amount: y, .. }) =>
            if x > y { Some(AssetV::Native { denom, amount: (x - y) as nat }) } else { None },
        (AssetV::Cw20 { contract, amount: x }, AssetV::Cw20 { amount: y, .. }) =>
            if x > y { Some(AssetV::Cw20 { contract, amount: (x - y) as nat }) } else { None },
        _ => None,
    }
}

/// The asset that a list of bank coins stands for: exactly one coin.
pub open spec fn native_from_coins_spec(coins: Seq<Coin>) -> Result<AssetV, ContractError> {
    if coins.len() == 0 {
        Err(ContractError::EmptyBalance)
    } else if coins.len() > 1 {
        Err(ContractError::AssetMismatch)
    } else {
        Ok(AssetV::Native { denom: coins[0].denom@, amount: coins[0].amount as nat })
    }
}

/// Adding two assets adds their units of every kind.
pub proof fn lemma_add_units(a: AssetV, b: AssetV, k: Key)
    ensures
        add_spec(a, b) is Ok ==> units(add_spec(a, b)->Ok_0, k) == units(a, k) + units(b, k),
{
}

/// Covering an ask splits the payment into the ask and the surplus.
pub proof fn lemma_surplus_units(have: AssetV, want: AssetV, k: Key)
    requires
        meets_spec(have, want),
    ensures
        units(have, k) == units(want, k) + units_opt(surplus_spec(have, want), k),
{
}

impl Asset {
    /// A copy of the asset.
    pub fn duplicate(&self) -> (r: Asset)
        ensures
            r@ == self@,
    {
        match self {
            Asset::Native { denom, amount } => Asset::Native { denom: denom.clone(), amount: *amount },
            Asset::Cw20 { contract, amount } => Asset::Cw20 { contract: contract.clone(), amount: *amount },
            Asset::Nft { contract, token_id } => Asset::Nft { contract: contract.clone(), token_id: token_id.clone() },
        }
    }

    /// Whether the asset holds no value.
    pub fn is_zero(&self) -> (r: bool)
        ensures
            r == is_zero_spec(self@),
    {
        match self {
            Asset::Native { amount, .. } => *amount == 0,
            Asset::Cw20 { amount, .. } => *amount == 0,
            Asset::Nft { .. } => false,
        }
    }

    /// Whether the asset is a non-fungible item.
    pub fn is_nft(&self) -> (r: bool)
        ensures
            r == (self@ is Nft),
    {
        match self {
            Asset::Nft { .. } => true,
            _ => false,
        }
    }

    /// The sum of two assets of the same kind.
    pub fn add(&self, other: &Asset) -> (r: Result<Asset, ContractError>)
        ensures
            match r {
                Ok(s) => add_spec(self@, other@) == Ok::<AssetV, ContractError>(s@),
                Err(e) => add_spec(self@, other@) == Err::<AssetV, ContractError>(e),
            },
    {
        match (self, other) {
            (Asset::Native { denom: d1, amount: x }, Asset::Native { denom: d2, amount: y }) => {
                if *d1 != *d2 {
                    Err(ContractError::AssetMismatch)
                } else {
                    match x.checked_add(*y) {
                        Some(s) => Ok(Asset::Native { denom: d1.clone(), amount: s }),
                        None => Err(ContractError::Overflow),
                    }
                }
            },
            (Asset::Cw20 { contract: c1, amount: x }, Asset::Cw20 { contract: c2, amount: y }) => {
                if *c1 != *c2 {
                    Err(ContractError::AssetMismatch)
                } else {
                    match x.checked_add(*y) {
                        Some(s) => Ok(Asset::Cw20 { contract: c1.clone(), amount: s }),
                        None => Err(ContractError::Overflow),
                    }
                }
            },
            (Asset::Nft { .. }, Asset::Nft { .. }) => Err(ContractError::DuplicateNft),
            _ => Err(ContractError::AssetMismatch),
        }
    }

    /// Whether `self` is of the kind of `want` and at least as much; an item
    /// meets an ask for exactly that item.
    pub fn meets_or_exceeds(&self, want: &Asset) -> (r: bool)
        ensures
            r == meets_spec(self@, want@),
    {
        match (self, want) {
            (Asset::Native { denom: d1, amount: x }, Asset::Native { denom: d2, amount: y }) =>
                *d1 == *d2 && *x >= *y,
            (Asset::Cw20 { contract: c1, amount: x }, Asset::Cw20 { contract: c2, amount: y }) =>
                *c1 == *c2 && *x >= *y,
            (Asset::Nft { contract: c1, token_id: t1 }, Asset::Nft { contract: c2, token_id: t2 }) =>
                *c1 == *c2 && *t1 == *t2,
            _ => false,
        }
    }

    /// What remains of `self` once `want` is taken from it.
    pub fn surplus(&self, want: &Asset) -> (r: Option<Asset>)
        requires
            meets_spec(self@, want@),
        ensures
            r matches Some(s) ==> surplus_spec(self@, want@) == Some(s@),
            r is None ==> surplus_spec(self@, want@) is None,
    {
        match (self, want) {
            (Asset::Native { denom, amount: x }, Asset::Native { amount: y, .. }) => {
                if *x > *y { Some(Asset::Native { denom: denom.clone(), amount: *x - *y }) } else { None }
            },
            (Asset::Cw20 { contract, amount: x }, Asset::Cw20 { amount: y, .. }) => {
                if *x > *y { Some(Asset::Cw20 { contract: contract.clone(), amount: *x - *y }) } else { None }
            },
            _ => None,
        }
    }
}

/// The asset that the coins sent along with a call stand for: exactly one coin.
pub fn native_from_coins(coins: &Vec<Coin>) -> (r: Result<Asset, ContractError>)
    ensures
        match r {
            Ok(a) => native_from_coins_spec(coins@) == Ok::<AssetV, ContractError>(a@),
            Err(e) => native_from_coins_spec(coins@) == Err::<AssetV, ContractError>(e),
        },
{
    if coins.len() == 0 {
        Err(ContractError::EmptyBalance)
    } else if coins.len() > 1 {
        Err(ContractError::AssetMismatch)
    } else {
        Ok(Asset::Native { denom: coins[0].denom.clone(), amount: coins[0].amount })
    }
}

} // verus!
