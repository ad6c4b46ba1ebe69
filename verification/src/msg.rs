//! Requests to the contract and what it answers.

use vstd::prelude::*;
use crate::state::{State, StateView, UserInfo, UserInfoView, opt_view, copy_opt_string};

verus! {

/// Token metadata handed to the NFT contract with each mint.
#[derive(Clone, Debug, PartialEq, Eq)]
pub struct JunoFarmingMsg {
    pub image: Option<String>,
}

pub struct JunoFarmingMsgView {
    pub image: Option<Seq<char>>,
}

impl View for JunoFarmingMsg {
    type V = JunoFarmingMsgView;

    open spec fn view(&self) -> JunoFarmingMsgView {
        JunoFarmingMsgView { image: opt_view(self.image) }
    }
}

impl JunoFarmingMsg {
    /// A copy with the same value.
    pub fn copy(&self) -> (r: JunoFarmingMsg)
        ensures
            r@ == self@,
    {
        JunoFarmingMsg { image: copy_opt_string(&self.image) }
    }
}

/// The views of a list of metadata entries.
pub open spec fn metadata_views(v: Seq<JunoFarmingMsg>) -> Seq<JunoFarmingMsgView> {
    Seq::new(v.len(), |i: int| v[i]@)
}

/// The sale's parameters, given once at instantiation.
#[derive(Clone, Debug, PartialEq, Eq)]
pub struct InstantiateMsg {
    pub total_nft: u128,
    pub owner: String,
    pub check_mint: Vec<bool>,
    pub url: String,
    pub image_url: String,
    pub price: u128,
    pub denom: String,
    pub max_nft: u128,
}

pub struct InstantiateMsgView {
    pub total_nft: u128,
    pub owner: Seq<char>,
    pub check_mint: Seq<bool>,
    pub url: Seq<char>,
    pub image_url: Seq<char>,
    pub price: u128,
    pub denom: Seq<char>,
    pub max_nft: u128,
}

impl View for InstantiateMsg {
    type V = InstantiateMsgView;

    open spec fn view(&self) -> InstantiateMsgView {
        InstantiateMsgView {
            total_nft: self.total_nft,
            owner: self.owner@,
            check_mint: self.check_mint@,
            url: self.url@,
            image_url: self.image_url@,
            price: self.price,
            denom: self.denom@,
            max_nft: self.max_nft,
        }
    }
}

/// The requests that change the contract.
#[derive(Clone, Debug, PartialEq, Eq)]
pub enum ExecuteMsg {
    Mint { rand: u128 },
    SetNftAddress { address: String },
    ChangeOwner { address: String },
    ChangePrice { amount: u128 },
    AddAdmin { admin: UserInfo },
    DeleteAdmin { admin: String },
    AddWhiteUser { user: UserInfo },
    DeleteWhiteUser { user: String },
}

pub enum ExecuteMsgView {
    Mint { rand: u128 },
    SetNftAddress { address: Seq<char> },
    ChangeOwner { address: Seq<char> },
    ChangePrice { amount: u128 },
    AddAdmin { admin: UserInfoView },
    DeleteAdmin { admin: Seq<char> },
    AddWhiteUser { user: UserInfoView },
    DeleteWhiteUser { user: Seq<char> },
}

impl View for ExecuteMsg {
    type V = ExecuteMsgView;

    open spec fn view(&self) -> ExecuteMsgView {
        match self {
            ExecuteMsg::Mint { rand } => ExecuteMsgView::Mint { rand: *rand },
            ExecuteMsg::SetNftAddress { address } => ExecuteMsgView::SetNftAddress {
                address: address@,
            },
            ExecuteMsg::ChangeOwner { address } => ExecuteMsgView::ChangeOwner { address: address@ },
            ExecuteMsg::ChangePrice { amount } => ExecuteMsgView::ChangePrice { amount: *amount },
            ExecuteMsg::AddAdmin { admin } => ExecuteMsgView::AddAdmin { admin: admin@ },
            ExecuteMsg::DeleteAdmin { admin } => ExecuteMsgView::DeleteAdmin { admin: admin@ },
            ExecuteMsg::AddWhiteUser { user } => ExecuteMsgView::AddWhiteUser { user: user@ },
            ExecuteMsg::DeleteWhiteUser { user } => ExecuteMsgView::DeleteWhiteUser { user: user@ },
        }
    }
}

/// The questions the contract answers.
#[derive(Clone, Debug, PartialEq, Eq)]
pub enum QueryMsg {
    GetStateInfo {},
    GetUserInfo { address: String },
    GetWhiteInfo { address: String },
    GetWhiteUsers {},
    GetAdmin {},
    GetAdminInfo { address: String },
    GetAllToken {},
}

pub enum QueryMsgView {
    GetStateInfo,
    GetUserInfo { address: Seq<char> },
    GetWhiteInfo { address: Seq<char> },
    GetWhiteUsers,
    GetAdmin,
    GetAdminInfo { address: Seq<char> },
    GetAllToken,
}

impl View for QueryMsg {
    type V = QueryMsgView;

    open spec fn view(&self) -> QueryMsgView {
        match self {
            QueryMsg::GetStateInfo {} => QueryMsgView::GetStateInfo,
            QueryMsg::GetUserInfo { address } => QueryMsgView::GetUserInfo { address: address@ },
            QueryMsg::GetWhiteInfo { address } => QueryMsgView::GetWhiteInfo { address: address@ },
            QueryMsg::GetWhiteUsers {} => QueryMsgView::GetWhiteUsers,
            QueryMsg::GetAdmin {} => QueryMsgView::GetAdmin,
            QueryMsg::GetAdminInfo { address } => QueryMsgView::GetAdminInfo { address: address@ },
            QueryMsg::GetAllToken {} => QueryMsgView::GetAllToken,
        }
    }
}

/// An amount of one denomination.
#[derive(Clone, Debug, PartialEq, Eq)]
pub struct Coin {
    pub denom: String,
    pub amount: u128,
}

pub struct CoinView {
    pub denom: Seq<char>,
    pub amount: u128,
}

impl View for Coin {
    type V = CoinView;

    open spec fn view(&self) -> CoinView {
        CoinView { denom: self.denom@, amount: self.amount }
    }
}

/// The views of a list of coins.
pub open spec fn coin_views(v: Seq<Coin>) -> Seq<CoinView> {
    Seq::new(v.len(), |i: int| v[i]@)
}

/// Who sends a request, and the funds sent with it.
#[derive(Clone, Debug, PartialEq, Eq)]
pub struct MessageInfo {
    pub sender: String,
    pub funds: Vec<Coin>,
}

pub struct MessageInfoView {
    pub sender: Seq<char>,
    pub funds: Seq<CoinView>,
}

impl View for MessageInfo {
    type V = MessageInfoView;

    open spec fn view(&self) -> MessageInfoView {
        MessageInfoView { sender: self.sender@, funds: coin_views(self.funds@) }
    }
}

/// A message the contract sends on, for the chain to carry out.
#[derive(Clone, Debug, PartialEq, Eq)]
pub enum Message {
    /// Ask the NFT contract at `contract_addr` to mint a token.
    MintNft {
        contract_addr: String,
        token_id: String,
        owner: String,
        token_uri: Option<String>,
        extension: JunoFarmingMsg,
    },
    /// Send coins to an address.
    BankSend { to_address: String, amount: Vec<Coin> },
}

pub enum MessageView {
    MintNft {
        contract_addr: Seq<char>,
        token_id: Seq<char>,
        owner: Seq<char>,
        token_uri: Option<Seq<char>>,
        extension: JunoFarmingMsgView,
    },
    BankSend { to_address: Seq<char>, amount: Seq<CoinView> },
}

impl View for Message {
    type V = MessageView;

    open spec fn view(&self) -> MessageView {
        match self {
            Message::MintNft { contract_addr, token_id, owner, token_uri, extension } =>
                MessageView::MintNft {
                contract_addr: contract_addr@,
                token_id: token_id@,
                owner: owner@,
                token_uri: opt_view(*token_uri),
                extension: extension@,
            },
            Message::BankSend { to_address, amount } => MessageView::BankSend {
                to_address: to_address@,
                amount: coin_views(amount@),
            },
        }
    }
}

/// What an accepted execution answers: the messages to send on.
#[derive(Clone, Debug, PartialEq, Eq)]
pub struct Response {
    pub messages: Vec<Message>,
}

impl View for Response {
    type V = Seq<MessageView>;

    open spec fn view(&self) -> Seq<MessageView> {
        Seq::new(self.messages@.len(), |i: int| self.messages@[i]@)
    }
}

/// What a query answers.
#[derive(Clone, Debug, PartialEq, Eq)]
pub enum QueryAnswer {
    StateInfo(State),
    Amount(u128),
    User(UserInfo),
    Addresses(Vec<String>),
    Tokens(Vec<String>),
}

pub enum QueryAnswerView {
    StateInfo(StateView),
    Amount(u128),
    User(UserInfoView),
    Addresses(Seq<Seq<char>>),
    Tokens(Seq<Seq<char>>),
}

impl View for QueryAnswer {
    type V = QueryAnswerView;

    open spec fn view(&self) -> QueryAnswerView {
        match self {
            QueryAnswer::StateInfo(s) => QueryAnswerView::StateInfo(s@),
            QueryAnswer::Amount(a) => QueryAnswerView::Amount(*a),
            QueryAnswer::User(u) => QueryAnswerView::User(u@),
            QueryAnswer::Addresses(v) => QueryAnswerView::Addresses(
                crate::store::string_views(v@),
            ),
            QueryAnswer::Tokens(v) => QueryAnswerView::Tokens(crate::store::string_views(v@)),
        }
    }
}

} // verus!
