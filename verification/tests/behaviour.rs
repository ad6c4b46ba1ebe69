use lunar_nft::contract::{
    check_mint_request, execute, instantiate, mint_in_bounds, query, query_admin_info,
    query_admin_list, query_all_token, query_get_info, query_info, query_metadata,
    query_white_info, query_white_users, Contract,
};
use lunar_nft::decimal::decimal_string;
use lunar_nft::error::{ContractError, StdError, StoredItem};
use lunar_nft::keyorder::{compare_keys, KeyOrder};
use lunar_nft::msg::{
    Coin, ExecuteMsg, InstantiateMsg, JunoFarmingMsg, Message, MessageInfo, QueryAnswer, QueryMsg,
};
use lunar_nft::state::UserInfo;
use lunar_nft::store::KeyedStore;

fn info(sender: &str, funds: &[Coin]) -> MessageInfo {
    MessageInfo { sender: sender.to_string(), funds: funds.to_vec() }
}

fn coin(denom: &str, amount: u128) -> Coin {
    Coin { denom: denom.to_string(), amount }
}

fn user(address: &str) -> UserInfo {
    UserInfo {
        first_name: Some("First".to_string()),
        last_name: None,
        email: None,
        mobile: None,
        contract_id: None,
        build_type: None,
        role: Some("role".to_string()),
        address: address.to_string(),
    }
}

fn sale(total_nft: u128, flags: usize) -> Contract {
    let mut c = Contract::new();
    let msg = InstantiateMsg {
        total_nft,
        owner: "creator".to_string(),
        check_mint: vec![true; flags],
        url: "url".to_string(),
        image_url: "img".to_string(),
        price: 10,
        denom: "ujunox".to_string(),
        max_nft: 20,
    };
    instantiate(&mut c, msg).unwrap();
    c
}

fn whitelist(c: &mut Contract, address: &str) {
    execute(c, info("creator", &[]), ExecuteMsg::AddWhiteUser { user: user(address) }).unwrap();
}

#[test]
fn nothing_works_before_instantiation() {
    let mut c = Contract::new();
    let missing = ContractError::Std(StdError::NotFound { kind: StoredItem::Config });
    assert_eq!(
        execute(&mut c, info("creator", &[]), ExecuteMsg::ChangePrice { amount: 3 }),
        Err(missing)
    );
    assert_eq!(
        execute(&mut c, info("creator", &[]), ExecuteMsg::Mint { rand: 1 }),
        Err(missing)
    );
    assert_eq!(
        execute(&mut c, info("creator", &[]), ExecuteMsg::AddWhiteUser { user: user("a") }),
        Err(missing)
    );
    assert_eq!(query_get_info(&c), Err(StdError::NotFound { kind: StoredItem::Config }));
    assert_eq!(query_metadata(&c), Err(StdError::NotFound { kind: StoredItem::Metadata }));
    assert_eq!(query_all_token(&c), Ok(vec![]));
}

#[test]
fn instantiate_stores_configuration() {
    let c = sale(10, 3);
    let s = query_get_info(&c).unwrap();
    assert_eq!(s.total_nft, 10);
    assert_eq!(s.owner, "creator");
    assert_eq!(s.count, 0);
    assert_eq!(s.check_mint, vec![true, true, true]);
    assert_eq!(s.nft_address, "nft");
    assert_eq!(s.url, "url");
    assert_eq!(s.image_url, "img");
    assert_eq!(s.price, 10);
    assert_eq!(s.denom, "ujunox");
    assert_eq!(s.max_nft, 20);
    assert_eq!(query_metadata(&c), Ok(Vec::<JunoFarmingMsg>::new()));
    assert_eq!(query_all_token(&c), Ok(vec![]));
}

#[test]
fn owner_only_requests_refuse_others_and_change_nothing() {
    let mut c = sale(10, 3);
    let requests = vec![
        ExecuteMsg::SetNftAddress { address: "x".to_string() },
        ExecuteMsg::ChangeOwner { address: "x".to_string() },
        ExecuteMsg::ChangePrice { amount: 1 },
        ExecuteMsg::AddAdmin { admin: user("x") },
        ExecuteMsg::DeleteAdmin { admin: "x".to_string() },
        ExecuteMsg::DeleteWhiteUser { user: "x".to_string() },
        ExecuteMsg::AddWhiteUser { user: user("x") },
    ];
    for msg in requests {
        let r = execute(&mut c, info("stranger", &[]), msg);
        assert_eq!(r, Err(ContractError::Unauthorized {}));
    }
    let s = query_get_info(&c).unwrap();
    assert_eq!(s.owner, "creator");
    assert_eq!(s.price, 10);
    assert_eq!(s.nft_address, "nft");
    assert_eq!(query_admin_list(&c), Ok(vec![]));
    assert_eq!(query_white_users(&c), Ok(vec![]));
}

#[test]
fn settings_read_back() {
    let mut c = sale(10, 3);
    execute(&mut c, info("creator", &[]), ExecuteMsg::SetNftAddress { address: "nfts".to_string() })
        .unwrap();
    execute(&mut c, info("creator", &[]), ExecuteMsg::ChangePrice { amount: 99 }).unwrap();
    let s = query_get_info(&c).unwrap();
    assert_eq!(s.nft_address, "nfts");
    assert_eq!(s.price, 99);
}

#[test]
fn ownership_moves_with_change_owner() {
    let mut c = sale(10, 3);
    let r = execute(&mut c, info("creator", &[]), ExecuteMsg::ChangeOwner { address: "heir".to_string() })
        .unwrap();
    assert!(r.messages.is_empty());
    assert_eq!(query_get_info(&c).unwrap().owner, "heir");
    assert_eq!(
        execute(&mut c, info("creator", &[]), ExecuteMsg::ChangePrice { amount: 1 }),
        Err(ContractError::Unauthorized {})
    );
    execute(&mut c, info("heir", &[]), ExecuteMsg::ChangePrice { amount: 1 }).unwrap();
    assert_eq!(query_get_info(&c).unwrap().price, 1);
}

#[test]
fn admins_are_listed_in_byte_order() {
    let mut c = sale(10, 3);
    for a in ["bob", "alice", "Zed", "\u{e9}mile", "zoe", "alice"] {
        execute(&mut c, info("creator", &[]), ExecuteMsg::AddAdmin { admin: user(a) }).unwrap();
    }
    assert_eq!(
        query_admin_list(&c).unwrap(),
        vec!["Zed".to_string(), "alice".to_string(), "bob".to_string(), "zoe".to_string(), "\u{e9}mile".to_string()]
    );
    assert_eq!(query_admin_info(&c, "bob".to_string()), Ok(user("bob")));
    execute(&mut c, info("creator", &[]), ExecuteMsg::DeleteAdmin { admin: "bob".to_string() }).unwrap();
    assert_eq!(
        query_admin_info(&c, "bob".to_string()),
        Err(StdError::NotFound { kind: StoredItem::Admin })
    );
    assert_eq!(
        query_admin_list(&c).unwrap(),
        vec!["Zed".to_string(), "alice".to_string(), "zoe".to_string(), "\u{e9}mile".to_string()]
    );
    // Deleting a missing admin is accepted and changes nothing.
    execute(&mut c, info("creator", &[]), ExecuteMsg::DeleteAdmin { admin: "nobody".to_string() }).unwrap();
    assert_eq!(query_admin_list(&c).unwrap().len(), 4);
}

#[test]
fn adding_an_admin_again_replaces_the_record() {
    let mut c = sale(10, 3);
    execute(&mut c, info("creator", &[]), ExecuteMsg::AddAdmin { admin: user("ann") }).unwrap();
    let mut second = user("ann");
    second.email = Some("ann@example.org".to_string());
    execute(&mut c, info("creator", &[]), ExecuteMsg::AddAdmin { admin: second.clone() }).unwrap();
    assert_eq!(query_admin_list(&c).unwrap(), vec!["ann".to_string()]);
    assert_eq!(query_admin_info(&c, "ann".to_string()), Ok(second));
}

#[test]
fn admins_may_whitelist_others_may_not() {
    let mut c = sale(10, 3);
    for a in ["amy", "carl", "dora"] {
        execute(&mut c, info("creator", &[]), ExecuteMsg::AddAdmin { admin: user(a) }).unwrap();
    }
    // "bert" sits between admins in the sorted list, but is no admin.
    assert_eq!(
        execute(&mut c, info("bert", &[]), ExecuteMsg::AddWhiteUser { user: user("w0") }),
        Err(ContractError::Unauthorized {})
    );
    assert_eq!(
        execute(&mut c, info("zack", &[]), ExecuteMsg::AddWhiteUser { user: user("w0") }),
        Err(ContractError::Unauthorized {})
    );
    execute(&mut c, info("carl", &[]), ExecuteMsg::AddWhiteUser { user: user("w2") }).unwrap();
    execute(&mut c, info("amy", &[]), ExecuteMsg::AddWhiteUser { user: user("w1") }).unwrap();
    execute(&mut c, info("dora", &[]), ExecuteMsg::AddWhiteUser { user: user("w3") }).unwrap();
    assert_eq!(
        query_white_users(&c).unwrap(),
        vec!["w1".to_string(), "w2".to_string(), "w3".to_string()]
    );
    assert_eq!(query_white_info(&c, "w2".to_string()), Ok(user("w2")));
    // Only the owner removes from the whitelist.
    assert_eq!(
        execute(&mut c, info("carl", &[]), ExecuteMsg::DeleteWhiteUser { user: "w2".to_string() }),
        Err(ContractError::Unauthorized {})
    );
    execute(&mut c, info("creator", &[]), ExecuteMsg::DeleteWhiteUser { user: "w2".to_string() })
        .unwrap();
    assert_eq!(
        query_white_info(&c, "w2".to_string()),
        Err(StdError::NotFound { kind: StoredItem::WhiteUser })
    );
    assert_eq!(query_white_users(&c).unwrap(), vec!["w1".to_string(), "w3".to_string()]);
}

#[test]
fn owner_mint_sends_one_message() {
    let mut c = sale(10, 5);
    execute(&mut c, info("creator", &[]), ExecuteMsg::SetNftAddress { address: "nfts".to_string() })
        .unwrap();
    let r = execute(&mut c, info("creator", &[]), ExecuteMsg::Mint { rand: 3 }).unwrap();
    assert_eq!(
        r.messages,
        vec![Message::MintNft {
            contract_addr: "nfts".to_string(),
            token_id: "LUNAR_NFT.3".to_string(),
            owner: "creator".to_string(),
            token_uri: Some("url3.json".to_string()),
            extension: JunoFarmingMsg { image: Some("img3.png".to_string()) },
        }]
    );
    let s = query_get_info(&c).unwrap();
    assert_eq!(s.count, 1);
    assert_eq!(s.check_mint, vec![true, true, false, true, true]);
    assert_eq!(query_all_token(&c).unwrap(), vec!["LUNAR_NFT.3".to_string()]);
}

#[test]
fn paid_mint_forwards_the_price_to_the_owner() {
    let mut c = sale(10, 5);
    whitelist(&mut c, "buyer");
    let funds = [coin("uatom", 10), coin("ujunox", 10), coin("ujunox", 99)];
    let r = execute(&mut c, info("buyer", &funds), ExecuteMsg::Mint { rand: 5 }).unwrap();
    assert_eq!(r.messages.len(), 2);
    assert_eq!(
        r.messages[0],
        Message::MintNft {
            contract_addr: "nft".to_string(),
            token_id: "LUNAR_NFT.5".to_string(),
            owner: "buyer".to_string(),
            token_uri: Some("url5.json".to_string()),
            extension: JunoFarmingMsg { image: Some("img5.png".to_string()) },
        }
    );
    assert_eq!(
        r.messages[1],
        Message::BankSend { to_address: "creator".to_string(), amount: vec![coin("ujunox", 10)] }
    );
    assert_eq!(query_get_info(&c).unwrap().check_mint, vec![true, true, true, true, false]);
}

#[test]
fn mint_refusals() {
    let mut c = sale(10, 5);
    whitelist(&mut c, "buyer");
    assert_eq!(
        execute(&mut c, info("stranger", &[coin("ujunox", 10)]), ExecuteMsg::Mint { rand: 1 }),
        Err(ContractError::WrongWhiteUser {})
    );
    assert_eq!(
        execute(&mut c, info("buyer", &[coin("ujunox", 9)]), ExecuteMsg::Mint { rand: 1 }),
        Err(ContractError::Notenough {})
    );
    assert_eq!(
        execute(&mut c, info("buyer", &[coin("uatom", 10)]), ExecuteMsg::Mint { rand: 1 }),
        Err(ContractError::Notenough {})
    );
    assert_eq!(
        execute(&mut c, info("buyer", &[]), ExecuteMsg::Mint { rand: 1 }),
        Err(ContractError::Notenough {})
    );
    assert_eq!(
        execute(&mut c, info("creator", &[]), ExecuteMsg::Mint { rand: 11 }),
        Err(ContractError::WrongNumber {})
    );
    // Refusals mint nothing.
    assert_eq!(query_get_info(&c).unwrap().count, 0);
    assert_eq!(query_all_token(&c).unwrap(), Vec::<String>::new());
}

#[test]
fn minting_ends_at_the_total() {
    let mut c = sale(2, 5);
    execute(&mut c, info("creator", &[]), ExecuteMsg::Mint { rand: 1 }).unwrap();
    execute(&mut c, info("creator", &[]), ExecuteMsg::Mint { rand: 1 }).unwrap();
    assert_eq!(
        execute(&mut c, info("creator", &[]), ExecuteMsg::Mint { rand: 2 }),
        Err(ContractError::MintEnded {})
    );
    let s = query_get_info(&c).unwrap();
    assert_eq!(s.count, 2);
    assert_eq!(
        query_all_token(&c).unwrap(),
        vec!["LUNAR_NFT.1".to_string(), "LUNAR_NFT.1".to_string()]
    );
}

#[test]
fn mint_bounds_follow_the_flags() {
    let c = sale(10, 3);
    // Accepted mints must name a flag.
    assert!(mint_in_bounds(&c, &info("creator", &[]), 1));
    assert!(mint_in_bounds(&c, &info("creator", &[]), 3));
    assert!(!mint_in_bounds(&c, &info("creator", &[]), 0));
    assert!(!mint_in_bounds(&c, &info("creator", &[]), 4));
    // Refused mints are in bounds whatever their number.
    assert!(mint_in_bounds(&c, &info("creator", &[]), 11));
    assert!(mint_in_bounds(&c, &info("stranger", &[]), 0));
    assert_eq!(check_mint_request(&c, &info("creator", &[]), 4), None);
    assert_eq!(
        check_mint_request(&c, &info("creator", &[]), 11),
        Some(ContractError::WrongNumber {})
    );
}

#[test]
fn user_amounts_are_read_back() {
    let mut c = sale(10, 3);
    c.user_info.insert("u1".to_string(), 42);
    assert_eq!(query_info(&c, "u1".to_string()), Ok(42));
    assert_eq!(
        query_info(&c, "u2".to_string()),
        Err(StdError::NotFound { kind: StoredItem::UserAmount })
    );
}

#[test]
fn query_dispatch() {
    let mut c = sale(10, 3);
    execute(&mut c, info("creator", &[]), ExecuteMsg::AddAdmin { admin: user("adm") }).unwrap();
    whitelist(&mut c, "wl");
    execute(&mut c, info("creator", &[]), ExecuteMsg::Mint { rand: 2 }).unwrap();
    match query(&c, QueryMsg::GetStateInfo {}) {
        Ok(QueryAnswer::StateInfo(s)) => assert_eq!(s.count, 1),
        other => panic!("unexpected {:?}", other),
    }
    assert_eq!(query(&c, QueryMsg::GetAdmin {}), Ok(QueryAnswer::Addresses(vec!["adm".to_string()])));
    assert_eq!(query(&c, QueryMsg::GetWhiteUsers {}), Ok(QueryAnswer::Addresses(vec!["wl".to_string()])));
    assert_eq!(query(&c, QueryMsg::GetAdminInfo { address: "adm".to_string() }), Ok(QueryAnswer::User(user("adm"))));
    assert_eq!(query(&c, QueryMsg::GetWhiteInfo { address: "wl".to_string() }), Ok(QueryAnswer::User(user("wl"))));
    assert_eq!(
        query(&c, QueryMsg::GetUserInfo { address: "wl".to_string() }),
        Err(StdError::NotFound { kind: StoredItem::UserAmount })
    );
    assert_eq!(
        query(&c, QueryMsg::GetAllToken {}),
        Ok(QueryAnswer::Tokens(vec!["LUNAR_NFT.2".to_string()]))
    );
}

#[test]
fn decimal_rendering() {
    assert_eq!(decimal_string(0), "0");
    assert_eq!(decimal_string(7), "7");
    assert_eq!(decimal_string(10), "10");
    assert_eq!(decimal_string(1234567890), "1234567890");
    assert_eq!(decimal_string(u128::MAX), u128::MAX.to_string());
}

#[test]
fn key_comparison() {
    assert_eq!(compare_keys("a", "b"), KeyOrder::Less);
    assert_eq!(compare_keys("b", "a"), KeyOrder::Greater);
    assert_eq!(compare_keys("ab", "ab"), KeyOrder::Equal);
    assert_eq!(compare_keys("ab", "abc"), KeyOrder::Less);
    assert_eq!(compare_keys("", "a"), KeyOrder::Less);
    assert_eq!(compare_keys("Z", "a"), KeyOrder::Less);
    assert_eq!(compare_keys("\u{e9}", "z"), KeyOrder::Greater);
}

#[test]
fn keyed_store_operations() {
    let mut s: KeyedStore<u128> = KeyedStore::new();
    s.insert("m".to_string(), 1);
    s.insert("c".to_string(), 2);
    s.insert("x".to_string(), 3);
    s.insert("c".to_string(), 4);
    assert_eq!(s.len(), 3);
    assert_eq!(s.get("c"), Some(&4));
    assert_eq!(s.get("q"), None);
    assert_eq!(s.key_list(), vec!["c".to_string(), "m".to_string(), "x".to_string()]);
    s.remove("m");
    s.remove("nothing");
    assert_eq!(s.key_list(), vec!["c".to_string(), "x".to_string()]);
}
