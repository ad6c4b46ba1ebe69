//! The contract's stored records: the sale configuration and user records.

use vstd::prelude::*;

verus! {

/// The view of an optional string.
pub open spec fn opt_view(o: Option<String>) -> Option<Seq<char>> {
    match o {
        Some(s) => Some(s@),
        None => None,
    }
}

/// Copies an optional string.
pub fn copy_opt_string(o: &Option<String>) -> (r: Option<String>)
    ensures
        opt_view(r) == opt_view(*o),
{
    match o {
        Some(s) => Some(s.clone()),
        None => None,
    }
}

/// Copies a list of flags.
pub fn copy_flags(v: &Vec<bool>) -> (r: Vec<bool>)
    ensures
        r@ == v@,
{
    let mut r: Vec<bool> = Vec::new();
    let mut i: usize = 0;
    while i < v.len()
        invariant
            i <= v@.len(),
            r@ == v@.take(i as int),
        decreases v@.len() - i,
    {
        r.push(v[i]);
        assert(v@.take(i + 1) =~= v@.take(i as int).push(v@[i as int]));
        i = i + 1;
    }
    assert(v@.take(v@.len() as int) =~= v@);
    r
}

/// The sale configuration.
#[derive(Clone, Debug, PartialEq, Eq)]
pub struct State {
    pub total_nft: u128,
    pub owner: String,
    pub count: u128,
    pub check_mint: Vec<bool>,
    pub nft_address: String,
    pub url: String,
    pub image_url: String,
    pub price: u128,
    pub denom: String,
    pub max_nft: u128,
}

/// The mathematical value of a [`State`].
pub struct StateView {
    pub total_nft: u128,
    pub owner: Seq<char>,
    pub count: u128,
    pub check_mint: Seq<bool>,
    pub nft_address: Seq<char>,
    pub url: Seq<char>,
    pub image_url: Seq<char>,
    pub price: u128,
    pub denom: Seq<char>,
    pub max_nft: u128,
}

impl View for State {
    type V = StateView;

    open spec fn view(&self) -> StateView {
        StateView {
            total_nft: self.total_nft,
            owner: self.owner@,
            count: self.count,
            check_mint: self.check_mint@,
            nft_address: self.nft_address@,
            url: self.url@,
            image_url: self.image_url@,
            price: self.price,
            denom: self.denom@,
            max_nft: self.max_nft,
        }
    }
}

impl State {
    /// A copy with the same value.
    pub fn copy(&self) -> (r: State)
        ensures
            r@ == self@,
    {
        State {
            total_nft: self.total_nft,
            owner: self.owner.clone(),
            count: self.count,
            check_mint: copy_flags(&self.check_mint),
            nft_address: self.nft_address.clone(),
            url: self.url.clone(),
            image_url: self.image_url.clone(),
            price: self.price,
            denom: self.denom.clone(),
            max_nft: self.max_nft,
        }
    }
}

/// A user's (or admin's) record, stored under its address.
#[derive(Clone, Debug, PartialEq, Eq)]
pub struct UserInfo {
    pub first_name: Option<String>,
    pub last_name: Option<String>,
    pub email: Option<String>,
    pub mobile: Option<String>,
    pub contract_id: Option<String>,
    pub build_type: Option<String>,
    pub role: Option<String>,
    pub address: String,
}

/// The mathematical value of a [`UserInfo`].
pub struct UserInfoView {
    pub first_name: Option<Seq<char>>,
    pub last_name: Option<Seq<char>>,
    pub email: Option<Seq<char>>,
    pub mobile: Option<Seq<char>>,
    pub contract_id: Option<Seq<char>>,
    pub build_type: Option<Seq<char>>,
    pub role: Option<Seq<char>>,
    pub address: Seq<char>,
}

impl View for UserInfo {
    type V = UserInfoView;

    open spec fn view(&self) -> UserInfoView {
        UserInfoView {
            first_name: opt_view(self.first_name),
            last_name: opt_view(self.last_name),
            email: opt_view(self.email),
            mobile: opt_view(self.mobile),
            contract_id: opt_view(self.contract_id),
            build_type: opt_view(self.build_type),
            role: opt_view(self.role),
            address: self.address@,
        }
    }
}

impl UserInfo {
    /// A copy with the same value.
    pub fn copy(&self) -> (r: UserInfo)
        ensures
            r@ == self@,
    {
        UserInfo {
            first_name: copy_opt_string(&self.first_name),
            last_name: copy_opt_string(&self.last_name),
            email: copy_opt_string(&self.email),
            mobile: copy_opt_string(&self.mobile),
            contract_id: copy_opt_string(&self.contract_id),
            build_type: copy_opt_string(&self.build_type),
            role: copy_opt_string(&self.role),
            address: self.address.clone(),
        }
    }
}

} // verus!
