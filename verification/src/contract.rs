//! The contract: its stored data, the executions that change it and the
//! queries that read it. Each operation is specified by a spec function on
//! the contract's view, and the executable code is proved to follow it.

use vstd::prelude::*;
use crate::decimal::{decimal_chars, decimal_string};
use crate::error::{ContractError, StdError, StoredItem};
use crate::msg::{
    Coin, CoinView, ExecuteMsg, ExecuteMsgView, InstantiateMsg, InstantiateMsgView, JunoFarmingMsg,
    JunoFarmingMsgView, Message, MessageInfo, MessageInfoView, MessageView, QueryAnswer,
    QueryAnswerView, QueryMsg, QueryMsgView, Response, coin_views, metadata_views,
};
use crate::state::{State, StateView, UserInfo, UserInfoView, copy_flags};
use crate::store::{KeyedStore, sorted_keys, string_views, strictly_ascending};

verus! {

/// Everything the contract keeps.
pub struct Contract {
    /// The sale configuration, present once instantiated.
    pub config: Option<State>,
    /// The metadata list, present once instantiated.
    pub metadata: Option<Vec<JunoFarmingMsg>>,
    /// Amounts recorded per address.
    pub user_info: KeyedStore<u128>,
    /// Whitelisted users, by address.
    pub white_info: KeyedStore<UserInfo>,
    /// Admins, by address.
    pub admin_info: KeyedStore<UserInfo>,
    /// The ids of the tokens minted so far, in order, once one was minted.
    pub token_ids: Option<Vec<String>>,
}

/// The mathematical value of a [`Contract`].
#[verifier::ext_equal]
pub struct ContractView {
    pub config: Option<StateView>,
    pub metadata: Option<Seq<JunoFarmingMsgView>>,
    pub user_info: Map<Seq<char>, u128>,
    pub white_info: Map<Seq<char>, UserInfoView>,
    pub admin_info: Map<Seq<char>, UserInfoView>,
    pub token_ids: Option<Seq<Seq<char>>>,
}

impl View for Contract {
    type V = ContractView;

    open spec fn view(&self) -> ContractView {
        ContractView {
            config: match self.config {
                Some(s) => Some(s@),
                None => None,
            },
            metadata: match self.metadata {
                Some(m) => Some(metadata_views(m@)),
                None => None,
            },
            user_info: self.user_info.as_map(),
            white_info: self.white_info.as_map(),
            admin_info: self.admin_info.as_map(),
            token_ids: match self.token_ids {
                Some(v) => Some(string_views(v@)),
                None => None,
            },
        }
    }
}

impl Contract {
    /// The stores keep their keys in order.
    pub open spec fn wf(&self) -> bool {
        &&& self.user_info.wf()
        &&& self.white_info.wf()
        &&& self.admin_info.wf()
    }

    /// A contract with nothing stored yet.
    pub fn new() -> (c: Contract)
        ensures
            c.wf(),
            c@ == empty_contract(),
    {
        Contract {
            config: None,
            metadata: None,
            user_info: KeyedStore::new(),
            white_info: KeyedStore::new(),
            admin_info: KeyedStore::new(),
            token_ids: None,
        }
    }
}

impl ContractView {
    /// Each store holds finitely many records, as every stored contract does.
    pub open spec fn records_finite(self) -> bool {
        &&& self.user_info.dom().finite()
        &&& self.white_info.dom().finite()
        &&& self.admin_info.dom().finite()
    }
}

impl Contract {
    /// A well-formed contract holds finitely many records.
    pub proof fn lemma_records_finite(&self)
        requires
            self.wf(),
        ensures
            self@.records_finite(),
    {
        self.user_info.lemma_keys_are_sorted_domain();
        self.white_info.lemma_keys_are_sorted_domain();
        self.admin_info.lemma_keys_are_sorted_domain();
    }
}

/// The view of a contract with nothing stored.
pub open spec fn empty_contract() -> ContractView {
    ContractView {
        config: None,
        metadata: None,
        user_info: Map::empty(),
        white_info: Map::empty(),
        admin_info: Map::empty(),
        token_ids: None,
    }
}

/// What an execution answers, by value.
pub open spec fn outcome(r: Result<Response, ContractError>) -> Result<Seq<MessageView>, ContractError> {
    match r {
        Ok(resp) => Ok(resp@),
        Err(e) => Err(e),
    }
}

/// The refusal for a missing record.
pub open spec fn not_found(kind: StoredItem) -> ContractError {
    ContractError::Std(StdError::NotFound { kind })
}

// ---------------------------------------------------------------------
// The specification of each operation.
// ---------------------------------------------------------------------

/// Instantiation stores the configuration, with nothing minted and the
/// NFT address a placeholder, and an empty metadata list.
pub open spec fn instantiate_spec(c: ContractView, msg: InstantiateMsgView) -> ContractView {
    ContractView {
        config: Some(
            StateView {
                total_nft: msg.total_nft,
                owner: msg.owner,
                count: 0,
                check_mint: msg.check_mint,
                nft_address: "nft"@,
                url: msg.url,
                image_url: msg.image_url,
                price: msg.price,
                denom: msg.denom,
                max_nft: msg.max_nft,
            },
        ),
        metadata: Some(Seq::empty()),
        ..c
    }
}

/// An operation that only the owner may perform: it leads to `next`.
pub open spec fn owner_only(c: ContractView, sender: Seq<char>, next: ContractView) -> (
    ContractView,
    Result<Seq<MessageView>, ContractError>,
) {
    match c.config {
        None => (c, Err(not_found(StoredItem::Config))),
        Some(s) => if s.owner != sender {
            (c, Err(ContractError::Unauthorized {  }))
        } else {
            (next, Ok(Seq::empty()))
        },
    }
}

/// `c` with its configuration replaced.
pub open spec fn with_config(c: ContractView, s: StateView) -> ContractView {
    ContractView { config: Some(s), ..c }
}

pub open spec fn set_nft_address_spec(c: ContractView, sender: Seq<char>, address: Seq<char>) -> (
    ContractView,
    Result<Seq<MessageView>, ContractError>,
) {
    owner_only(c, sender, with_config(c, StateView { nft_address: address, ..c.config.unwrap() }))
}

pub open spec fn change_owner_spec(c: ContractView, sender: Seq<char>, address: Seq<char>) -> (
    ContractView,
    Result<Seq<MessageView>, ContractError>,
) {
    owner_only(c, sender, with_config(c, StateView { owner: address, ..c.config.unwrap() }))
}

pub open spec fn change_price_spec(c: ContractView, sender: Seq<char>, amount: u128) -> (
    ContractView,
    Result<Seq<MessageView>, ContractError>,
) {
    owner_only(c, sender, with_config(c, StateView { price: amount, ..c.config.unwrap() }))
}

pub open spec fn add_admin_spec(c: ContractView, sender: Seq<char>, admin: UserInfoView) -> (
    ContractView,
    Result<Seq<MessageView>, ContractError>,
) {
    owner_only(
        c,
        sender,
        ContractView { admin_info: c.admin_info.insert(admin.address, admin), ..c },
    )
}

pub open spec fn delete_admin_spec(c: ContractView, sender: Seq<char>, admin: Seq<char>) -> (
    ContractView,
    Result<Seq<MessageView>, ContractError>,
) {
    owner_only(c, sender, ContractView { admin_info: c.admin_info.remove(admin), ..c })
}

pub open spec fn delete_user_spec(c: ContractView, sender: Seq<char>, user: Seq<char>) -> (
    ContractView,
    Result<Seq<MessageView>, ContractError>,
) {
    owner_only(c, sender, ContractView { white_info: c.white_info.remove(user), ..c })
}

/// The owner or any admin may whitelist a user.
pub open spec fn add_user_spec(c: ContractView, sender: Seq<char>, user: UserInfoView) -> (
    ContractView,
    Result<Seq<MessageView>, ContractError>,
) {
    match c.config {
        None => (c, Err(not_found(StoredItem::Config))),
        Some(s) => if s.owner == sender || c.admin_info.contains_key(sender) {
            (ContractView { white_info: c.white_info.insert(user.address, user), ..c }, Ok(Seq::empty()))
        } else {
            (c, Err(ContractError::Unauthorized {  }))
        },
    }
}

/// The amount of the first coin of denomination `denom`, or zero.
pub open spec fn amount_paid(funds: Seq<CoinView>, denom: Seq<char>) -> u128
    decreases funds.len(),
{
    if funds.len() == 0 {
        0
    } else if funds[0].denom == denom {
        funds[0].amount
    } else {
        amount_paid(funds.drop_first(), denom)
    }
}

/// The id of token number `rand`.
pub open spec fn token_id_for(rand: u128) -> Seq<char> {
    "LUNAR_NFT"@ + "."@ + decimal_chars(rand as nat)
}

/// The message asking the NFT contract to mint token number `rand` for `owner`.
pub open spec fn mint_message_spec(s: StateView, owner: Seq<char>, rand: u128) -> MessageView {
    MessageView::MintNft {
        contract_addr: s.nft_address,
        token_id: token_id_for(rand),
        owner,
        token_uri: Some(s.url + decimal_chars(rand as nat) + "."@ + "json"@),
        extension: JunoFarmingMsgView {
            image: Some(s.image_url + decimal_chars(rand as nat) + "."@ + "png"@),
        },
    }
}

/// Why a mint is refused, if it is.
pub open spec fn mint_refusal(c: ContractView, info: MessageInfoView, rand: u128) -> Option<ContractError> {
    match c.config {
        None => Some(not_found(StoredItem::Config)),
        Some(s) => if s.count >= s.total_nft {
            Some(ContractError::MintEnded {  })
        } else if rand > s.total_nft {
            Some(ContractError::WrongNumber {  })
        } else if info.sender == s.owner {
            None
        } else if !c.white_info.contains_key(info.sender) {
            Some(ContractError::WrongWhiteUser {  })
        } else if amount_paid(info.funds, s.denom) != s.price {
            Some(ContractError::Notenough {  })
        } else {
            None
        },
    }
}

/// The contract after token number `rand` was minted.
pub open spec fn minted(c: ContractView, rand: u128) -> ContractView {
    let s = c.config.unwrap();
    ContractView {
        config: Some(
            StateView {
                count: (s.count + 1) as u128,
                check_mint: s.check_mint.update(rand - 1, false),
                ..s
            },
        ),
        token_ids: Some(
            match c.token_ids {
                Some(ids) => ids.push(token_id_for(rand)),
                None => seq![token_id_for(rand)],
            },
        ),
        ..c
    }
}

/// The messages of an accepted mint: the mint itself, and for a paying
/// user the payment forwarded to the owner.
pub open spec fn mint_messages(s: StateView, info: MessageInfoView, rand: u128) -> Seq<MessageView> {
    if info.sender == s.owner {
        seq![mint_message_spec(s, info.sender, rand)]
    } else {
        seq![
            mint_message_spec(s, info.sender, rand),
            MessageView::BankSend {
                to_address: s.owner,
                amount: seq![CoinView { denom: s.denom, amount: amount_paid(info.funds, s.denom) }],
            },
        ]
    }
}

pub open spec fn mint_spec(c: ContractView, info: MessageInfoView, rand: u128) -> (
    ContractView,
    Result<Seq<MessageView>, ContractError>,
) {
    match mint_refusal(c, info, rand) {
        Some(e) => (c, Err(e)),
        None => (minted(c, rand), Ok(mint_messages(c.config.unwrap(), info, rand))),
    }
}

/// An accepted mint of `rand` names a flag of the configuration (numbered
/// from one); the contract cannot mint any other.
pub open spec fn mint_in_range(c: ContractView, info: MessageInfoView, rand: u128) -> bool {
    mint_refusal(c, info, rand) is None ==> 1 <= rand <= c.config.unwrap().check_mint.len()
}

pub open spec fn execute_spec(c: ContractView, info: MessageInfoView, msg: ExecuteMsgView) -> (
    ContractView,
    Result<Seq<MessageView>, ContractError>,
) {
    match msg {
        ExecuteMsgView::Mint { rand } => mint_spec(c, info, rand),
        ExecuteMsgView::SetNftAddress { address } => set_nft_address_spec(c, info.sender, address),
        ExecuteMsgView::ChangeOwner { address } => change_owner_spec(c, info.sender, address),
        ExecuteMsgView::ChangePrice { amount } => change_price_spec(c, info.sender, amount),
        ExecuteMsgView::AddAdmin { admin } => add_admin_spec(c, info.sender, admin),
        ExecuteMsgView::DeleteAdmin { admin } => delete_admin_spec(c, info.sender, admin),
        ExecuteMsgView::AddWhiteUser { user } => add_user_spec(c, info.sender, user),
        ExecuteMsgView::DeleteWhiteUser { user } => delete_user_spec(c, info.sender, user),
    }
}

pub open spec fn execute_requires(c: ContractView, info: MessageInfoView, msg: ExecuteMsgView) -> bool {
    match msg {
        ExecuteMsgView::Mint { rand } => mint_in_range(c, info, rand),
        _ => true,
    }
}

pub open spec fn query_get_info_spec(c: ContractView) -> Result<StateView, StdError> {
    match c.config {
        Some(s) => Ok(s),
        None => Err(StdError::NotFound { kind: StoredItem::Config }),
    }
}

pub open spec fn query_info_spec(c: ContractView, address: Seq<char>) -> Result<u128, StdError> {
    if c.user_info.contains_key(address) {
        Ok(c.user_info[address])
    } else {
        Err(StdError::NotFound { kind: StoredItem::UserAmount })
    }
}

pub open spec fn query_white_info_spec(c: ContractView, address: Seq<char>) -> Result<UserInfoView, StdError> {
    if c.white_info.contains_key(address) {
        Ok(c.white_info[address])
    } else {
        Err(StdError::NotFound { kind: StoredItem::WhiteUser })
    }
}

pub open spec fn query_admin_info_spec(c: ContractView, address: Seq<char>) -> Result<UserInfoView, StdError> {
    if c.admin_info.contains_key(address) {
        Ok(c.admin_info[address])
    } else {
        Err(StdError::NotFound { kind: StoredItem::Admin })
    }
}

pub open spec fn query_metadata_spec(c: ContractView) -> Result<Seq<JunoFarmingMsgView>, StdError> {
    match c.metadata {
        Some(m) => Ok(m),
        None => Err(StdError::NotFound { kind: StoredItem::Metadata }),
    }
}

pub open spec fn query_all_token_spec(c: ContractView) -> Seq<Seq<char>> {
    match c.token_ids {
        Some(ids) => ids,
        None => Seq::empty(),
    }
}

pub open spec fn query_spec(c: ContractView, msg: QueryMsgView) -> Result<QueryAnswerView, StdError> {
    match msg {
        QueryMsgView::GetStateInfo => match query_get_info_spec(c) {
            Ok(s) => Ok(QueryAnswerView::StateInfo(s)),
            Err(e) => Err(e),
        },
        QueryMsgView::GetUserInfo { address } => match query_info_spec(c, address) {
            Ok(a) => Ok(QueryAnswerView::Amount(a)),
            Err(e) => Err(e),
        },
        QueryMsgView::GetWhiteInfo { address } => match query_white_info_spec(c, address) {
            Ok(u) => Ok(QueryAnswerView::User(u)),
            Err(e) => Err(e),
        },
        QueryMsgView::GetWhiteUsers => Ok(QueryAnswerView::Addresses(sorted_keys(c.white_info))),
        QueryMsgView::GetAdmin => Ok(QueryAnswerView::Addresses(sorted_keys(c.admin_info))),
        QueryMsgView::GetAdminInfo { address } => match query_admin_info_spec(c, address) {
            Ok(u) => Ok(QueryAnswerView::User(u)),
            Err(e) => Err(e),
        },
        QueryMsgView::GetAllToken => Ok(QueryAnswerView::Tokens(query_all_token_spec(c))),
    }
}

pub open spec fn answer_view(r: Result<QueryAnswer, StdError>) -> Result<QueryAnswerView, StdError> {
    match r {
        Ok(a) => Ok(a@),
        Err(e) => Err(e),
    }
}

// ---------------------------------------------------------------------
// Executions.
// ---------------------------------------------------------------------

fn empty_response() -> (r: Response)
    ensures
        r@ == Seq::<MessageView>::empty(),
{
    let r = Response { messages: Vec::new() };
    assert(r@ =~= Seq::<MessageView>::empty());
    r
}

fn config_missing() -> (e: ContractError)
    ensures
        e == not_found(StoredItem::Config),
{
    ContractError::Std(StdError::NotFound { kind: StoredItem::Config })
}

/// Stores the sale's configuration, with nothing minted yet, and an empty
/// metadata list.
pub fn instantiate(c: &mut Contract, msg: InstantiateMsg) -> (r: Result<Response, ContractError>)
    requires
        old(c).wf(),
    ensures
        final(c).wf(),
        final(c)@ == instantiate_spec(old(c)@, msg@),
        outcome(r) == Ok::<Seq<MessageView>, ContractError>(Seq::empty()),
{
    let state = State {
        total_nft: msg.total_nft,
        owner: msg.owner,
        count: 0,
        check_mint: msg.check_mint,
        nft_address: String::from_str("nft"),
        url: msg.url,
        image_url: msg.image_url,
        price: msg.price,
        denom: msg.denom,
        max_nft: msg.max_nft,
    };
    c.config = Some(state);
    let metadata: Vec<JunoFarmingMsg> = Vec::new();
    c.metadata = Some(metadata);
    proof {
        assert(metadata_views(metadata@) =~= Seq::<JunoFarmingMsgView>::empty());
        assert(c@ =~= instantiate_spec(old(c)@, msg@));
    }
    Ok(empty_response())
}

/// Refuses unless the configuration is stored and `info` comes from its owner.
fn check_owner(c: &Contract, info: &MessageInfo) -> (r: Result<(), ContractError>)
    ensures
        r is Ok <==> (c@.config matches Some(s) && s.owner == info@.sender),
        r matches Err(e) ==> owner_only(c@, info@.sender, c@) == (
            c@,
            Err::<Seq<MessageView>, ContractError>(e),
        ),
{
    match &c.config {
        None => Err(config_missing()),
        Some(s) => {
            if s.owner == info.sender {
                Ok(())
            } else {
                Err(ContractError::Unauthorized {  })
            }
        },
    }
}

fn execute_set_nft_address(c: &mut Contract, info: &MessageInfo, address: String) -> (r: Result<
    Response,
    ContractError,
>)
    requires
        old(c).wf(),
    ensures
        final(c).wf(),
        (final(c)@, outcome(r)) == set_nft_address_spec(old(c)@, info@.sender, address@),
{
    if let Err(e) = check_owner(c, info) {
        return Err(e);
    }
    let mut s = c.config.take().unwrap();
    s.nft_address = address;
    c.config = Some(s);
    assert(c@ =~= with_config(old(c)@, StateView { nft_address: address@, ..old(c)@.config.unwrap() }));
    Ok(empty_response())
}

fn execute_chage_owner(c: &mut Contract, info: &MessageInfo, address: String) -> (r: Result<
    Response,
    ContractError,
>)
    requires
        old(c).wf(),
    ensures
        final(c).wf(),
        (final(c)@, outcome(r)) == change_owner_spec(old(c)@, info@.sender, address@),
{
    if let Err(e) = check_owner(c, info) {
        return Err(e);
    }
    let mut s = c.config.take().unwrap();
    s.owner = address;
    c.config = Some(s);
    assert(c@ =~= with_config(old(c)@, StateView { owner: address@, ..old(c)@.config.unwrap() }));
    Ok(empty_response())
}

fn execute_change_price(c: &mut Contract, info: &MessageInfo, amount: u128) -> (r: Result<
    Response,
    ContractError,
>)
    requires
        old(c).wf(),
    ensures
        final(c).wf(),
        (final(c)@, outcome(r)) == change_price_spec(old(c)@, info@.sender, amount),
{
    if let Err(e) = check_owner(c, info) {
        return Err(e);
    }
    let mut s = c.config.take().unwrap();
    s.price = amount;
    c.config = Some(s);
    assert(c@ =~= with_config(old(c)@, StateView { price: amount, ..old(c)@.config.unwrap() }));
    Ok(empty_response())
}

fn execute_add_admin(c: &mut Contract, info: &MessageInfo, admin: UserInfo) -> (r: Result<
    Response,
    ContractError,
>)
    requires
        old(c).wf(),
    ensures
        final(c).wf(),
        (final(c)@, outcome(r)) == add_admin_spec(old(c)@, info@.sender, admin@),
{
    if let Err(e) = check_owner(c, info) {
        return Err(e);
    }
    let key = admin.address.clone();
    c.admin_info.insert(key, admin);
    assert(c@ =~= ContractView {
        admin_info: old(c)@.admin_info.insert(admin@.address, admin@),
        ..old(c)@
    });
    Ok(empty_response())
}

fn execute_delete_admin(c: &mut Contract, info: &MessageInfo, admin: String) -> (r: Result<
    Response,
    ContractError,
>)
    requires
        old(c).wf(),
    ensures
        final(c).wf(),
        (final(c)@, outcome(r)) == delete_admin_spec(old(c)@, info@.sender, admin@),
{
    if let Err(e) = check_owner(c, info) {
        return Err(e);
    }
    c.admin_info.remove(admin.as_str());
    assert(c@ =~= ContractView { admin_info: old(c)@.admin_info.remove(admin@), ..old(c)@ });
    Ok(empty_response())
}

/// `std`'s binary search of a sorted list of addresses for `key`.
///
/// Calls `<[String]>::binary_search`. Its documentation promises, for a
/// slice sorted in ascending order (`String` orders by its UTF-8 bytes, the
/// order of `strictly_ascending`), `Ok` with the index of an equal element
/// when there is one and `Err` with the insertion point when there is none.
/// The contract claims exactly that.
#[verifier::external_body]
fn binary_search_addresses(list: &Vec<String>, key: &String) -> (r: Result<usize, usize>)
    requires
        strictly_ascending(string_views(list@)),
    ensures
        r is Ok <==> string_views(list@).contains(key@),
        r matches Ok(i) ==> i < list@.len() && list@[i as int]@ == key@,
        r matches Err(i) ==> i <= list@.len(),
{
    list.binary_search(key)
}

fn execute_add_user(c: &mut Contract, info: &MessageInfo, user: UserInfo) -> (r: Result<
    Response,
    ContractError,
>)
    requires
        old(c).wf(),
    ensures
        final(c).wf(),
        (final(c)@, outcome(r)) == add_user_spec(old(c)@, info@.sender, user@),
{
    let is_owner = match &c.config {
        None => {
            return Err(config_missing());
        },
        Some(s) => s.owner == info.sender,
    };
    let admins = c.admin_info.key_list();
    proof {
        c.admin_info.lemma_keys_are_sorted_domain();
    }
    if !is_owner {
        match binary_search_addresses(&admins, &info.sender) {
            Ok(_) => {},
            Err(_) => {
                return Err(ContractError::Unauthorized {  });
            },
        }
    }
    let key = user.address.clone();
    c.white_info.insert(key, user);
    assert(c@ =~= ContractView {
        white_info: old(c)@.white_info.insert(user@.address, user@),
        ..old(c)@
    });
    Ok(empty_response())
}

fn execute_delete_user(c: &mut Contract, info: &MessageInfo, user: String) -> (r: Result<
    Response,
    ContractError,
>)
    requires
        old(c).wf(),
    ensures
        final(c).wf(),
        (final(c)@, outcome(r)) == delete_user_spec(old(c)@, info@.sender, user@),
{
    if let Err(e) = check_owner(c, info) {
        return Err(e);
    }
    c.white_info.remove(user.as_str());
    assert(c@ =~= ContractView { white_info: old(c)@.white_info.remove(user@), ..old(c)@ });
    Ok(empty_response())
}

/// The amount of the first coin of denomination `denom` in `funds`, or zero.
fn find_paid_amount(funds: &Vec<Coin>, denom: &String) -> (r: u128)
    ensures
        r == amount_paid(coin_views(funds@), denom@),
{
    let ghost fs = coin_views(funds@);
    assert(fs.skip(0) =~= fs);
    let mut i: usize = 0;
    while i < funds.len()
        invariant
            i <= funds@.len(),
            fs == coin_views(funds@),
            amount_paid(fs, denom@) == amount_paid(fs.skip(i as int), denom@),
        decreases funds@.len() - i,
    {
        assert(fs.skip(i as int)[0] == fs[i as int]);
        if funds[i].denom == *denom {
            return funds[i].amount;
        }
        assert(fs.skip(i as int).drop_first() =~= fs.skip(i + 1));
        i = i + 1;
    }
    0
}

/// The id of token number `rand`: "LUNAR_NFT." followed by the number.
fn token_id_string(rand: u128) -> (s: String)
    ensures
        s@ == token_id_for(rand),
{
    let mut s = String::from_str("LUNAR_NFT");
    s.append(".");
    let number = decimal_string(rand);
    s.append(number.as_str());
    s
}

/// The message minting token number `rand` for `owner`, with its metadata
/// and image paths.
fn mint_message(state: &State, owner: &String, rand: u128) -> (m: Message)
    ensures
        m@ == mint_message_spec(state@, owner@, rand),
{
    let number = decimal_string(rand);
    let mut uri = state.url.clone();
    uri.append(number.as_str());
    uri.append(".");
    uri.append("json");
    let mut image = state.image_url.clone();
    image.append(number.as_str());
    image.append(".");
    image.append("png");
    Message::MintNft {
        contract_addr: state.nft_address.clone(),
        token_id: token_id_string(rand),
        owner: owner.clone(),
        token_uri: Some(uri),
        extension: JunoFarmingMsg { image: Some(image) },
    }
}

/// Why a mint of `rand` by `info`'s sender would be refused, if it would.
pub fn check_mint_request(c: &Contract, info: &MessageInfo, rand: u128) -> (r: Option<ContractError>)
    requires
        c.wf(),
    ensures
        r == mint_refusal(c@, info@, rand),
{
    let state = match &c.config {
        None => {
            return Some(config_missing());
        },
        Some(s) => s,
    };
    if state.count >= state.total_nft {
        return Some(ContractError::MintEnded {  });
    }
    if rand > state.total_nft {
        return Some(ContractError::WrongNumber {  });
    }
    if info.sender == state.owner {
        return None;
    }
    if c.white_info.get(info.sender.as_str()).is_none() {
        return Some(ContractError::WrongWhiteUser {  });
    }
    if find_paid_amount(&info.funds, &state.denom) != state.price {
        return Some(ContractError::Notenough {  });
    }
    None
}

/// Whether a mint of `rand` by `info`'s sender is refused or names one of
/// the configuration's flags (numbered from one): what [`execute`] needs of
/// a mint request.
pub fn mint_in_bounds(c: &Contract, info: &MessageInfo, rand: u128) -> (b: bool)
    requires
        c.wf(),
    ensures
        b == mint_in_range(c@, info@, rand),
{
    match check_mint_request(c, info, rand) {
        Some(_) => true,
        None => {
            let n: usize = match &c.config {
                Some(s) => s.check_mint.len(),
                None => 0,
            };
            1 <= rand && rand <= n as u128
        },
    }
}

fn execute_mint(c: &mut Contract, info: &MessageInfo, rand: u128) -> (r: Result<
    Response,
    ContractError,
>)
    requires
        old(c).wf(),
        mint_in_range(old(c)@, info@, rand),
    ensures
        final(c).wf(),
        (final(c)@, outcome(r)) == mint_spec(old(c)@, info@, rand),
{
    if let Some(e) = check_mint_request(c, info, rand) {
        return Err(e);
    }
    let state = c.config.as_ref().unwrap();
    let is_owner = info.sender == state.owner;
    let mut messages: Vec<Message> = Vec::new();
    messages.push(mint_message(state, &info.sender, rand));
    if !is_owner {
        let paid: u128 = find_paid_amount(&info.funds, &state.denom);
        let mut amount: Vec<Coin> = Vec::new();
        amount.push(Coin { denom: state.denom.clone(), amount: paid });
        assert(coin_views(amount@) =~= seq![CoinView { denom: state.denom@, amount: paid }]);
        messages.push(Message::BankSend { to_address: state.owner.clone(), amount });
    }
    let token_id = token_id_string(rand);
    let mut s = c.config.take().unwrap();
    s.count = s.count + 1;
    let flags: usize = s.check_mint.len();
    assert(rand <= flags);
    let index: usize = (rand - 1) as usize;
    s.check_mint.set(index, false);
    c.config = Some(s);
    assert(c@.config == minted(old(c)@, rand).config);
    let mut ids = match c.token_ids.take() {
        Some(v) => v,
        None => Vec::new(),
    };
    let ghost old_ids = ids@;
    ids.push(token_id);
    assert(string_views(ids@) =~= string_views(old_ids).push(token_id_for(rand)));
    assert(string_views(Seq::<String>::empty()).push(token_id_for(rand)) =~= seq![token_id_for(rand)]);
    c.token_ids = Some(ids);
    assert(c@.token_ids == minted(old(c)@, rand).token_ids);
    let resp = Response { messages };
    assert(c@ =~= minted(old(c)@, rand));
    assert(resp@ =~= mint_messages(old(c)@.config.unwrap(), info@, rand));
    Ok(resp)
}

/// Carries out an execution request from `info`'s sender.
pub fn execute(c: &mut Contract, info: MessageInfo, msg: ExecuteMsg) -> (r: Result<
    Response,
    ContractError,
>)
    requires
        old(c).wf(),
        execute_requires(old(c)@, info@, msg@),
    ensures
        final(c).wf(),
        (final(c)@, outcome(r)) == execute_spec(old(c)@, info@, msg@),
{
    match msg {
        ExecuteMsg::Mint { rand } => execute_mint(c, &info, rand),
        ExecuteMsg::SetNftAddress { address } => execute_set_nft_address(c, &info, address),
        ExecuteMsg::ChangeOwner { address } => execute_chage_owner(c, &info, address),
        ExecuteMsg::ChangePrice { amount } => execute_change_price(c, &info, amount),
        ExecuteMsg::AddAdmin { admin } => execute_add_admin(c, &info, admin),
        ExecuteMsg::DeleteAdmin { admin } => execute_delete_admin(c, &info, admin),
        ExecuteMsg::AddWhiteUser { user } => execute_add_user(c, &info, user),
        ExecuteMsg::DeleteWhiteUser { user } => execute_delete_user(c, &info, user),
    }
}

// ---------------------------------------------------------------------
// Queries.
// ---------------------------------------------------------------------

fn copy_strings(v: &Vec<String>) -> (r: Vec<String>)
    ensures
        string_views(r@) == string_views(v@),
{
    let mut r: Vec<String> = Vec::new();
    let mut i: usize = 0;
    while i < v.len()
        invariant
            i <= v@.len(),
            r@.len() == i,
            forall|j: int| 0 <= j < i ==> #[trigger] r@[j]@ == v@[j]@,
        decreases v@.len() - i,
    {
        r.push(v[i].clone());
        i = i + 1;
    }
    assert(string_views(r@) =~= string_views(v@));
    r
}

/// The sale configuration.
pub fn query_get_info(c: &Contract) -> (r: Result<State, StdError>)
    ensures
        match r {
            Ok(s) => query_get_info_spec(c@) == Ok::<StateView, StdError>(s@),
            Err(e) => query_get_info_spec(c@) == Err::<StateView, StdError>(e),
        },
{
    match &c.config {
        Some(s) => Ok(s.copy()),
        None => Err(StdError::NotFound { kind: StoredItem::Config }),
    }
}

/// The amount recorded for `address`.
pub fn query_info(c: &Contract, address: String) -> (r: Result<u128, StdError>)
    requires
        c.wf(),
    ensures
        r == query_info_spec(c@, address@),
{
    match c.user_info.get(address.as_str()) {
        Some(v) => Ok(*v),
        None => Err(StdError::NotFound { kind: StoredItem::UserAmount }),
    }
}

/// The whitelist record of `address`.
pub fn query_white_info(c: &Contract, address: String) -> (r: Result<UserInfo, StdError>)
    requires
        c.wf(),
    ensures
        match r {
            Ok(u) => query_white_info_spec(c@, address@) == Ok::<UserInfoView, StdError>(u@),
            Err(e) => query_white_info_spec(c@, address@) == Err::<UserInfoView, StdError>(e),
        },
{
    match c.white_info.get(address.as_str()) {
        Some(u) => Ok(u.copy()),
        None => Err(StdError::NotFound { kind: StoredItem::WhiteUser }),
    }
}

/// The whitelisted addresses, ascending.
pub fn query_white_users(c: &Contract) -> (r: Result<Vec<String>, StdError>)
    requires
        c.wf(),
    ensures
        r matches Ok(v) && string_views(v@) == sorted_keys(c@.white_info),
{
    Ok(c.white_info.key_list())
}

/// The admin addresses, ascending.
pub fn query_admin_list(c: &Contract) -> (r: Result<Vec<String>, StdError>)
    requires
        c.wf(),
    ensures
        r matches Ok(v) && string_views(v@) == sorted_keys(c@.admin_info),
{
    Ok(c.admin_info.key_list())
}

/// The admin record of `address`.
pub fn query_admin_info(c: &Contract, address: String) -> (r: Result<UserInfo, StdError>)
    requires
        c.wf(),
    ensures
        match r {
            Ok(u) => query_admin_info_spec(c@, address@) == Ok::<UserInfoView, StdError>(u@),
            Err(e) => query_admin_info_spec(c@, address@) == Err::<UserInfoView, StdError>(e),
        },
{
    match c.admin_info.get(address.as_str()) {
        Some(u) => Ok(u.copy()),
        None => Err(StdError::NotFound { kind: StoredItem::Admin }),
    }
}

/// The stored metadata list.
pub fn query_metadata(c: &Contract) -> (r: Result<Vec<JunoFarmingMsg>, StdError>)
    ensures
        match r {
            Ok(m) => query_metadata_spec(c@) == Ok::<Seq<JunoFarmingMsgView>, StdError>(
                metadata_views(m@),
            ),
            Err(e) => query_metadata_spec(c@) == Err::<Seq<JunoFarmingMsgView>, StdError>(e),
        },
{
    match &c.metadata {
        None => Err(StdError::NotFound { kind: StoredItem::Metadata }),
        Some(m) => {
            let mut r: Vec<JunoFarmingMsg> = Vec::new();
            let mut i: usize = 0;
            while i < m.len()
                invariant
                    i <= m@.len(),
                    r@.len() == i,
                    forall|j: int| 0 <= j < i ==> #[trigger] r@[j]@ == m@[j]@,
                decreases m@.len() - i,
            {
                r.push(m[i].copy());
                i = i + 1;
            }
            assert(metadata_views(r@) =~= metadata_views(m@));
            Ok(r)
        },
    }
}

/// The ids of all tokens minted, in order.
pub fn query_all_token(c: &Contract) -> (r: Result<Vec<String>, StdError>)
    ensures
        r matches Ok(v) && string_views(v@) == query_all_token_spec(c@),
{
    match &c.token_ids {
        None => {
            let ids: Vec<String> = Vec::new();
            assert(string_views(ids@) =~= Seq::<Seq<char>>::empty());
            Ok(ids)
        },
        Some(ids) => Ok(copy_strings(ids)),
    }
}

/// Answers a query.
pub fn query(c: &Contract, msg: QueryMsg) -> (r: Result<QueryAnswer, StdError>)
    requires
        c.wf(),
    ensures
        answer_view(r) == query_spec(c@, msg@),
{
    match msg {
        QueryMsg::GetStateInfo {  } => match query_get_info(c) {
            Ok(s) => Ok(QueryAnswer::StateInfo(s)),
            Err(e) => Err(e),
        },
        QueryMsg::GetUserInfo { address } => match query_info(c, address) {
            Ok(a) => Ok(QueryAnswer::Amount(a)),
            Err(e) => Err(e),
        },
        QueryMsg::GetWhiteInfo { address } => match query_white_info(c, address) {
            Ok(u) => Ok(QueryAnswer::User(u)),
            Err(e) => Err(e),
        },
        QueryMsg::GetWhiteUsers {  } => match query_white_users(c) {
            Ok(v) => Ok(QueryAnswer::Addresses(v)),
            Err(e) => Err(e),
        },
        QueryMsg::GetAdmin {  } => match query_admin_list(c) {
            Ok(v) => Ok(QueryAnswer::Addresses(v)),
            Err(e) => Err(e),
        },
        QueryMsg::GetAdminInfo { address } => match query_admin_info(c, address) {
            Ok(u) => Ok(QueryAnswer::User(u)),
            Err(e) => Err(e),
        },
        QueryMsg::GetAllToken {  } => match query_all_token(c) {
            Ok(v) => Ok(QueryAnswer::Tokens(v)),
            Err(e) => Err(e),
        },
    }
}

} // verus!
