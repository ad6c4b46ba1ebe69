//! What holds of the contract across operations, proved on the
//! specification that the executable operations follow.

use vstd::prelude::*;
use crate::contract::{
    ContractView, add_admin_spec, add_user_spec, change_owner_spec, change_price_spec,
    delete_admin_spec, delete_user_spec, execute_requires, execute_spec, instantiate_spec,
    mint_in_range, mint_message_spec, mint_refusal, mint_spec, query_admin_info_spec,
    query_all_token_spec, query_get_info_spec, query_metadata_spec, query_white_info_spec,
    set_nft_address_spec, token_id_for,
};
use crate::error::{ContractError, StdError, StoredItem};
use crate::decimal::{decimal_chars, lemma_decimal_chars_writes, writes_decimal};
use crate::msg::{CoinView, ExecuteMsgView, MessageInfoView, MessageView};
use crate::contract::amount_paid;
use crate::state::{StateView, UserInfoView};
use crate::store::{lemma_sorted_keys_exist, sorted_keys};

verus! {

/// A refused execution leaves everything stored as it was.
pub proof fn law_refusal_changes_nothing(c: ContractView, info: MessageInfoView, msg: ExecuteMsgView)
    ensures
        execute_spec(c, info, msg).1 is Err ==> execute_spec(c, info, msg).0 == c,
{
}

/// Only the owner may change the configuration, the admins, or remove a
/// whitelisted user: anyone else is refused as unauthorized.
pub proof fn law_only_owner_manages(c: ContractView, info: MessageInfoView, msg: ExecuteMsgView)
    requires
        c.config matches Some(s) && s.owner != info.sender,
        !(msg is Mint),
        !(msg is AddWhiteUser),
    ensures
        execute_spec(c, info, msg) == (c, Err::<Seq<MessageView>, ContractError>(
            ContractError::Unauthorized {  },
        )),
{
}

/// Whitelisting is refused to anyone but the owner and the admins.
pub proof fn law_whitelisting_needs_owner_or_admin(
    c: ContractView,
    info: MessageInfoView,
    user: UserInfoView,
)
    requires
        c.config matches Some(s) && s.owner != info.sender,
        !c.admin_info.contains_key(info.sender),
    ensures
        execute_spec(c, info, ExecuteMsgView::AddWhiteUser { user }) == (c, Err::<
            Seq<MessageView>,
            ContractError,
        >(ContractError::Unauthorized {  })),
{
}

/// An admin that the owner adds is then found under its address and listed
/// among the admins; no other admin record changes.
pub proof fn law_added_admin_is_found(c: ContractView, sender: Seq<char>, admin: UserInfoView)
    requires
        c.config matches Some(s) && s.owner == sender,
        c.records_finite(),
    ensures
        add_admin_spec(c, sender, admin).1 == Ok::<Seq<MessageView>, ContractError>(Seq::empty()),
        query_admin_info_spec(add_admin_spec(c, sender, admin).0, admin.address) == Ok::<
            UserInfoView,
            StdError,
        >(admin),
        sorted_keys(add_admin_spec(c, sender, admin).0.admin_info).contains(admin.address),
        forall|k: Seq<char>|
            k != admin.address ==> query_admin_info_spec(add_admin_spec(c, sender, admin).0, k)
                == query_admin_info_spec(c, k),
{
    let c2 = add_admin_spec(c, sender, admin).0;
    assert(c2.admin_info.dom() =~= c.admin_info.dom().insert(admin.address));
    lemma_sorted_keys_exist(c2.admin_info);
}

/// An admin that the owner deletes is no longer found nor listed.
pub proof fn law_deleted_admin_is_gone(c: ContractView, sender: Seq<char>, admin: Seq<char>)
    requires
        c.config matches Some(s) && s.owner == sender,
        c.records_finite(),
    ensures
        query_admin_info_spec(delete_admin_spec(c, sender, admin).0, admin) == Err::<
            UserInfoView,
            StdError,
        >(StdError::NotFound { kind: StoredItem::Admin }),
        !sorted_keys(delete_admin_spec(c, sender, admin).0.admin_info).contains(admin),
{
    let c2 = delete_admin_spec(c, sender, admin).0;
    assert(c2.admin_info.dom() =~= c.admin_info.dom().remove(admin));
    lemma_sorted_keys_exist(c2.admin_info);
}

/// A user whitelisted by the owner or an admin is then found under its
/// address and listed among the whitelisted users.
pub proof fn law_whitelisted_user_is_found(c: ContractView, sender: Seq<char>, user: UserInfoView)
    requires
        c.config matches Some(s) && (s.owner == sender || c.admin_info.contains_key(sender)),
        c.records_finite(),
    ensures
        add_user_spec(c, sender, user).1 == Ok::<Seq<MessageView>, ContractError>(Seq::empty()),
        query_white_info_spec(add_user_spec(c, sender, user).0, user.address) == Ok::<
            UserInfoView,
            StdError,
        >(user),
        sorted_keys(add_user_spec(c, sender, user).0.white_info).contains(user.address),
{
    let c2 = add_user_spec(c, sender, user).0;
    assert(c2.white_info.dom() =~= c.white_info.dom().insert(user.address));
    lemma_sorted_keys_exist(c2.white_info);
}

/// A user the owner removes from the whitelist is no longer found nor
/// listed, and can no longer buy.
pub proof fn law_removed_user_is_gone(
    c: ContractView,
    info: MessageInfoView,
    user: Seq<char>,
    rand: u128,
)
    requires
        c.config matches Some(s) && s.owner == info.sender,
        c.records_finite(),
    ensures
        query_white_info_spec(delete_user_spec(c, info.sender, user).0, user) == Err::<
            UserInfoView,
            StdError,
        >(StdError::NotFound { kind: StoredItem::WhiteUser }),
        !sorted_keys(delete_user_spec(c, info.sender, user).0.white_info).contains(user),
        user != info.sender ==> mint_refusal(
            delete_user_spec(c, info.sender, user).0,
            MessageInfoView { sender: user, ..info },
            rand,
        ) is Some,
{
    let c2 = delete_user_spec(c, info.sender, user).0;
    assert(c2.white_info.dom() =~= c.white_info.dom().remove(user));
    lemma_sorted_keys_exist(c2.white_info);
}

/// An accepted mint counts one more token, records its id after the ids
/// minted before, clears the token's flag and asks the NFT contract to mint
/// it for the sender; nothing else changes.
pub proof fn law_mint_takes_one_token(c: ContractView, info: MessageInfoView, rand: u128)
    requires
        mint_refusal(c, info, rand) is None,
        mint_in_range(c, info, rand),
    ensures
        ({
            let s = c.config.unwrap();
            let (c2, r) = mint_spec(c, info, rand);
            &&& c2.config matches Some(s2) && s2 == StateView {
                count: (s.count + 1) as u128,
                check_mint: s.check_mint.update(rand - 1, false),
                ..s
            }
            &&& s.count + 1 <= s.total_nft
            &&& query_all_token_spec(c2) == query_all_token_spec(c).push(token_id_for(rand))
            &&& c2.config.unwrap().check_mint[rand - 1] == false
            &&& c2.user_info == c.user_info
            &&& c2.white_info == c.white_info
            &&& c2.admin_info == c.admin_info
            &&& c2.metadata == c.metadata
            &&& r matches Ok(msgs) && msgs[0] == mint_message_spec(s, info.sender, rand)
        }),
{
    let c2 = mint_spec(c, info, rand).0;
    assert(query_all_token_spec(c2) =~= query_all_token_spec(c).push(token_id_for(rand)));
}

/// A paying user's accepted mint forwards exactly the price, in the sale's
/// denomination, to the owner.
pub proof fn law_paid_mint_forwards_price(c: ContractView, info: MessageInfoView, rand: u128)
    requires
        mint_refusal(c, info, rand) is None,
        c.config matches Some(s) && s.owner != info.sender,
    ensures
        ({
            let s = c.config.unwrap();
            mint_spec(c, info, rand).1 == Ok::<Seq<MessageView>, ContractError>(
                seq![
                    mint_message_spec(s, info.sender, rand),
                    MessageView::BankSend {
                        to_address: s.owner,
                        amount: seq![CoinView { denom: s.denom, amount: s.price }],
                    },
                ],
            )
        }),
{
}

/// No execution mints more tokens than the total, nor changes the total.
pub proof fn law_count_within_total(c: ContractView, info: MessageInfoView, msg: ExecuteMsgView)
    requires
        c.config matches Some(s) && s.count <= s.total_nft,
    ensures
        execute_spec(c, info, msg).0.config matches Some(s2) && s2.count <= s2.total_nft
            && s2.total_nft == c.config.unwrap().total_nft,
{
}

/// Every execution keeps the list of minted token ids as long as the count
/// of minted tokens.
pub proof fn law_token_ids_track_count(c: ContractView, info: MessageInfoView, msg: ExecuteMsgView)
    requires
        c.config matches Some(s) && query_all_token_spec(c).len() == s.count,
        execute_requires(c, info, msg),
    ensures
        execute_spec(c, info, msg).0.config matches Some(s2) && query_all_token_spec(
            execute_spec(c, info, msg).0,
        ).len() == s2.count,
{
    if msg is Mint {
        let rand: u128 = msg->rand;
        if mint_refusal(c, info, rand) is None {
            law_mint_takes_one_token(c, info, rand);
        }
    }
}

/// After instantiation the configuration reads back as given, with nothing
/// minted and the NFT address a placeholder, and the metadata list is empty.
pub proof fn law_instantiate_then_query(c: ContractView, msg: crate::msg::InstantiateMsgView)
    ensures
        query_get_info_spec(instantiate_spec(c, msg)) == Ok::<StateView, StdError>(
            StateView {
                total_nft: msg.total_nft,
                owner: msg.owner,
                count: 0,
                check_mint: msg.check_mint,
                nft_address: "nft"@,
                url: msg.url,
                image_url: msg.image_url,
                price: msg.price,
                denom: msg.denom,
                max_nft: msg.max_nft,
            },
        ),
        query_metadata_spec(instantiate_spec(c, msg)) == Ok::<Seq<crate::msg::JunoFarmingMsgView>, StdError>(
            Seq::empty(),
        ),
{
}

/// What the owner sets reads back as set.
pub proof fn law_settings_read_back(
    c: ContractView,
    sender: Seq<char>,
    address: Seq<char>,
    amount: u128,
)
    requires
        c.config matches Some(s) && s.owner == sender,
    ensures
        query_get_info_spec(set_nft_address_spec(c, sender, address).0) matches Ok(s2)
            && s2.nft_address == address,
        query_get_info_spec(change_price_spec(c, sender, amount).0) matches Ok(s2) && s2.price
            == amount,
        query_get_info_spec(change_owner_spec(c, sender, address).0) matches Ok(s2) && s2.owner
            == address,
{
}

/// Handing over ownership hands over authority: the new owner may manage,
/// and the former owner is refused.
pub proof fn law_ownership_moves(
    c: ContractView,
    sender: Seq<char>,
    new_owner: Seq<char>,
    info: MessageInfoView,
    msg: ExecuteMsgView,
)
    requires
        c.config matches Some(s) && s.owner == sender,
        new_owner != sender,
        info.sender == sender,
        !(msg is Mint),
        !(msg is AddWhiteUser),
    ensures
        execute_spec(change_owner_spec(c, sender, new_owner).0, info, msg).1 == Err::<
            Seq<MessageView>,
            ContractError,
        >(ContractError::Unauthorized {  }),
        change_price_spec(change_owner_spec(c, sender, new_owner).0, new_owner, 1).1 is Ok,
{
}

/// `u` is `prefix`, then `n` written in decimal, then `suffix`.
pub open spec fn spells_number(u: Seq<char>, prefix: Seq<char>, n: int, suffix: Seq<char>) -> bool {
    exists|ds: Seq<char>| writes_decimal(ds, n) && u == prefix + ds + suffix
}

/// `m` asks the NFT contract of sale `s` to mint token `n` for `owner`: the
/// id of `n`, and the url and image url of the sale each followed by `n`
/// in decimal and the file extension.
pub open spec fn mint_asks_for(m: MessageView, s: StateView, owner: Seq<char>, n: u128) -> bool {
    &&& m matches MessageView::MintNft { contract_addr, token_id, owner: o, token_uri, extension }
    &&& m->contract_addr == s.nft_address
    &&& m->MintNft_owner == owner
    &&& m->token_id == token_id_for(n)
    &&& m->token_uri matches Some(u) && spells_number(u, s.url, n as int, ".json"@)
    &&& m->extension.image matches Some(im) && spells_number(im, s.image_url, n as int, ".png"@)
}

/// For a sale still open, the owner may mint any token number up to the
/// total, the total included; a number above the total is refused as wrong,
/// whoever asks.
pub proof fn law_token_numbers_up_to_total(c: ContractView, info: MessageInfoView, rand: u128)
    requires
        c.config matches Some(s) && s.count < s.total_nft,
    ensures
        rand > c.config.unwrap().total_nft ==> mint_spec(c, info, rand) == (c, Err::<
            Seq<MessageView>,
            ContractError,
        >(ContractError::WrongNumber {  })),
        rand <= c.config.unwrap().total_nft && info.sender == c.config.unwrap().owner ==> (mint_spec(
            c,
            info,
            rand,
        ).1 is Ok),
{
}

proof fn lemma_amount_paid_first(funds: Seq<CoinView>, denom: Seq<char>, i: int)
    requires
        0 <= i < funds.len(),
        funds[i].denom == denom,
        forall|j: int| 0 <= j < i ==> funds[j].denom != denom,
    ensures
        amount_paid(funds, denom) == funds[i].amount,
    decreases i,
{
    if i > 0 {
        let rest = funds.drop_first();
        assert(funds[0].denom != denom);
        assert forall|j: int| 0 <= j < i - 1 implies rest[j].denom != denom by {
            assert(rest[j] == funds[j + 1]);
        }
        lemma_amount_paid_first(rest, denom, i - 1);
    }
}

proof fn lemma_amount_paid_none(funds: Seq<CoinView>, denom: Seq<char>)
    requires
        forall|j: int| 0 <= j < funds.len() ==> funds[j].denom != denom,
    ensures
        amount_paid(funds, denom) == 0,
    decreases funds.len(),
{
    if funds.len() > 0 {
        let rest = funds.drop_first();
        assert(funds[0].denom != denom);
        assert forall|j: int| 0 <= j < rest.len() implies rest[j].denom != denom by {
            assert(rest[j] == funds[j + 1]);
        }
        lemma_amount_paid_none(rest, denom);
    }
}

/// A whitelisted buyer's mint is accepted exactly when the first coin sent
/// in the sale's denomination is worth exactly the price, neither more nor
/// less; the coin then forwarded to the owner is that payment.
pub proof fn law_buyer_pays_exact_price(c: ContractView, info: MessageInfoView, rand: u128, i: int)
    requires
        c.config matches Some(s) && s.count < s.total_nft && rand <= s.total_nft && s.owner
            != info.sender,
        c.white_info.contains_key(info.sender),
        0 <= i < info.funds.len(),
        info.funds[i].denom == c.config.unwrap().denom,
        forall|j: int| 0 <= j < i ==> info.funds[j].denom != c.config.unwrap().denom,
    ensures
        (mint_spec(c, info, rand).1 is Ok) <==> info.funds[i].amount == c.config.unwrap().price,
        info.funds[i].amount != c.config.unwrap().price ==> mint_spec(c, info, rand) == (c, Err::<
            Seq<MessageView>,
            ContractError,
        >(ContractError::Notenough {  })),
        mint_spec(c, info, rand).1 matches Ok(msgs) ==> (msgs.len() == 2 && msgs[1] == (
        MessageView::BankSend {
            to_address: c.config.unwrap().owner,
            amount: seq![CoinView { denom: c.config.unwrap().denom, amount: info.funds[i].amount }],
        })),
{
    lemma_amount_paid_first(info.funds, c.config.unwrap().denom, i);
}

/// A whitelisted buyer who sends nothing in the sale's denomination pays
/// nothing: the mint is accepted only when the price is zero.
pub proof fn law_buyer_without_coin_pays_nothing(c: ContractView, info: MessageInfoView, rand: u128)
    requires
        c.config matches Some(s) && s.count < s.total_nft && rand <= s.total_nft && s.owner
            != info.sender,
        c.white_info.contains_key(info.sender),
        forall|j: int| 0 <= j < info.funds.len() ==> info.funds[j].denom != c.config.unwrap().denom,
    ensures
        (mint_spec(c, info, rand).1 is Ok) <==> c.config.unwrap().price == 0,
{
    lemma_amount_paid_none(info.funds, c.config.unwrap().denom);
}

/// The id of token number `n` is "LUNAR_NFT." followed by the decimal
/// writing of `n`.
pub proof fn law_token_id_writes_number(n: u128)
    ensures
        spells_number(token_id_for(n), "LUNAR_NFT."@, n as int, Seq::empty()),
{
    reveal_strlit("LUNAR_NFT");
    reveal_strlit(".");
    reveal_strlit("LUNAR_NFT.");
    lemma_decimal_chars_writes(n as nat);
    assert(token_id_for(n) =~= "LUNAR_NFT."@ + decimal_chars(n as nat) + Seq::<char>::empty());
}

/// Distinct token numbers get distinct ids.
pub proof fn law_token_ids_distinct(a: u128, b: u128)
    requires
        token_id_for(a) == token_id_for(b),
    ensures
        a == b,
{
    law_token_id_writes_number(a);
    law_token_id_writes_number(b);
    reveal_strlit("LUNAR_NFT.");
    let da = choose|ds: Seq<char>|
        writes_decimal(ds, a as int) && token_id_for(a) == "LUNAR_NFT."@ + ds + Seq::<char>::empty();
    let db = choose|ds: Seq<char>|
        writes_decimal(ds, b as int) && token_id_for(b) == "LUNAR_NFT."@ + ds + Seq::<char>::empty();
    assert(da =~= token_id_for(a).skip(10));
    assert(db =~= token_id_for(b).skip(10));
}

/// An accepted mint asks the sale's NFT contract to mint, for the sender,
/// the token with the id of its number, whose metadata path is the sale's
/// url, the number written in decimal and ".json", and whose image path is
/// the image url, the same number and ".png".
pub proof fn law_mint_message_paths(c: ContractView, info: MessageInfoView, rand: u128)
    requires
        mint_refusal(c, info, rand) is None,
    ensures
        (mint_spec(c, info, rand).1 matches Ok(msgs) && msgs.len() >= 1 && mint_asks_for(
            msgs[0],
            c.config.unwrap(),
            info.sender,
            rand,
        )),
{
    reveal_strlit(".");
    reveal_strlit("json");
    reveal_strlit(".json");
    reveal_strlit("png");
    reveal_strlit(".png");
    lemma_decimal_chars_writes(rand as nat);
    let s = c.config.unwrap();
    let ds = decimal_chars(rand as nat);
    assert(s.url + ds + "."@ + "json"@ =~= s.url + ds + ".json"@);
    assert(s.image_url + ds + "."@ + "png"@ =~= s.image_url + ds + ".png"@);
}

/// The state query answers the stored configuration as it is, whatever the
/// state; without one it answers that the configuration is missing.
pub proof fn law_state_query_answers_stored(c: ContractView)
    ensures
        c.config matches Some(s) ==> query_get_info_spec(c) == Ok::<StateView, StdError>(s),
        c.config is None ==> query_get_info_spec(c) == Err::<StateView, StdError>(
            StdError::NotFound { kind: StoredItem::Config },
        ),
{
}

/// After an accepted mint the state query answers the configuration with the
/// count one higher and the token's flag cleared, all else as configured.
pub proof fn law_mint_then_state_query(c: ContractView, info: MessageInfoView, rand: u128)
    requires
        mint_refusal(c, info, rand) is None,
        mint_in_range(c, info, rand),
    ensures
        query_get_info_spec(mint_spec(c, info, rand).0) == Ok::<StateView, StdError>(
            StateView {
                count: (c.config.unwrap().count + 1) as u128,
                check_mint: c.config.unwrap().check_mint.update(rand - 1, false),
                ..c.config.unwrap()
            },
        ),
{
}

} // verus!
