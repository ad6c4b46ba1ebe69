use lunar_nft::contract::{
    execute, instantiate, query_admin_list, query_all_token, query_get_info, query_white_users,
    Contract,
};
use lunar_nft::msg::{Coin, ExecuteMsg, InstantiateMsg, Message, MessageInfo};
use lunar_nft::state::UserInfo;

fn mock_info(sender: &str, funds: &[Coin]) -> MessageInfo {
    MessageInfo { sender: sender.to_string(), funds: funds.to_vec() }
}

#[test]
fn buy_token() {
    let mut deps = Contract::new();
    let instantiate_msg = InstantiateMsg {
        total_nft: 10,
        owner: "creator".to_string(),
        check_mint: vec![true, true, true, true, true],
        url: "url".to_string(),
        image_url: "imag_url".to_string(),
        price: 10,
        denom: "ujunox".to_string(),
        max_nft: 20,
    };
    let res = instantiate(&mut deps, instantiate_msg).unwrap();
    assert_eq!(0, res.messages.len());

    let info = mock_info("creator", &[]);
    let message = ExecuteMsg::SetNftAddress { address: "nft_address1".to_string() };
    execute(&mut deps, info, message).unwrap();

    let info = mock_info("creator", &[]);
    let message = ExecuteMsg::ChangePrice { amount: 12 };
    execute(&mut deps, info, message).unwrap();

    let info = mock_info("creator", &[]);
    let message = ExecuteMsg::AddAdmin {
        admin: UserInfo {
            address: "admin1".to_string(),
            email: Some("gmail.com".to_string()),
            first_name: Some("Jason".to_string()),
            last_name: Some("Chen".to_string()),
            mobile: Some("12345".to_string()),
            contract_id: Some("contract".to_string()),
            build_type: Some("build".to_string()),
            role: Some("owner".to_string()),
        },
    };
    execute(&mut deps, info, message).unwrap();

    let admin = query_admin_list(&deps).unwrap();
    assert_eq!(admin, vec!["admin1".to_string()]);

    let info = mock_info("admin1", &[]);
    let message = ExecuteMsg::AddWhiteUser {
        user: UserInfo {
            address: "white1".to_string(),
            email: Some("gmail.com".to_string()),
            first_name: Some("Jason".to_string()),
            last_name: Some("Chen".to_string()),
            mobile: Some("12345".to_string()),
            contract_id: Some("contract".to_string()),
            build_type: Some("build".to_string()),
            role: Some("owner".to_string()),
        },
    };
    execute(&mut deps, info, message).unwrap();

    let user = query_white_users(&deps).unwrap();
    assert_eq!(user, vec!["white1".to_string()]);

    let state = query_get_info(&deps).unwrap();
    assert_eq!(state.nft_address, "nft_address1".to_string());

    let info = mock_info("white1", &[Coin { denom: "ujunox".to_string(), amount: 12 }]);
    let message = ExecuteMsg::Mint { rand: 1 };
    let res = execute(&mut deps, info, message).unwrap();
    assert_eq!(res.messages.len(), 2);

    assert_eq!(
        res.messages[1],
        Message::BankSend {
            to_address: "creator".to_string(),
            amount: vec![Coin { denom: "ujunox".to_string(), amount: 12 }],
        }
    );

    let info = mock_info("creator", &[Coin { denom: "ujunox".to_string(), amount: 12 }]);
    let message = ExecuteMsg::Mint { rand: 2 };
    let res = execute(&mut deps, info, message).unwrap();
    assert_eq!(res.messages.len(), 1);

    let tokens = query_all_token(&deps).unwrap();
    assert_eq!(tokens, vec!["LUNAR_NFT.1".to_string(), "LUNAR_NFT.2".to_string()]);
}
