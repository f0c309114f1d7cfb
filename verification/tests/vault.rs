use vault::contract::{
    buyer_key, compute_cart_price, execute, instantiate, owner_key, query, sum_funds,
    try_buy_and_store_data, try_withdraw, validate_payment,
};
use vault::decimal::u128_to_dec;
use vault::error::ContractError;
use vault::msg::{Coin, Env, ExecuteMsg, InstantiateMsg, MessageInfo, QueryMsg};
use vault::state::Store;

fn coins(entries: &[(&str, u128)]) -> Vec<Coin> {
    entries
        .iter()
        .map(|(denom, amount)| Coin { denom: (*denom).to_string(), amount: *amount })
        .collect()
}

fn info(sender: &str, funds: Vec<Coin>) -> MessageInfo {
    MessageInfo { sender: sender.to_string(), funds }
}

fn env() -> Env {
    Env { contract_address: "vault-contract".to_string() }
}

fn query_data(store: &Store, buyer: &str, sender: &str) -> Result<String, ContractError> {
    query(
        store,
        QueryMsg::GetEncryptedData {
            buyer_address: buyer.to_string(),
            sender: sender.to_string(),
        },
    )
}

fn init_with_owner(store: &mut Store, owner: &str) {
    let r = instantiate(store, InstantiateMsg { owner: owner.to_string() });
    assert!(r.is_ok());
}

#[test]
fn scenario_purchase_query_withdraw() {
    let mut store = Store::new();
    init_with_owner(&mut store, "alice");

    let r = execute(
        &mut store,
        env(),
        info("bob", coins(&[("stake", 10)])),
        ExecuteMsg::BuyAndStoreData {
            cart_price_usd: 10,
            encrypted_data: "ciphertext-of-bob".to_string(),
        },
    );
    let resp = r.expect("exact payment must be accepted");
    assert_eq!(resp.messages.len(), 0);
    assert_eq!(resp.attributes.len(), 2);
    assert_eq!(resp.attributes[0].key, "action");
    assert_eq!(resp.attributes[0].value, "buy_and_store_data");
    assert_eq!(resp.attributes[1].key, "message");
    assert_eq!(
        resp.attributes[1].value,
        "Transferred 10 tokens from bob to vault-contract"
    );

    assert_eq!(
        query_data(&store, "bob", "alice"),
        Ok("ciphertext-of-bob".to_string())
    );
    assert_eq!(
        query_data(&store, "bob", "bob"),
        Err(ContractError::Unauthorized {})
    );

    let r = try_withdraw(&store, info("alice", vec![]), 5);
    let resp = r.expect("the owner may withdraw");
    assert_eq!(resp.attributes.len(), 1);
    assert_eq!(resp.attributes[0].key, "action");
    assert_eq!(resp.attributes[0].value, "withdraw");
    assert_eq!(resp.messages.len(), 1);
    assert_eq!(resp.messages[0].to_address, "alice");
    assert_eq!(resp.messages[0].amount.len(), 1);
    assert_eq!(resp.messages[0].amount[0].denom, "stake");
    assert_eq!(resp.messages[0].amount[0].amount, 5);
}

#[test]
fn underpayment_is_rejected_without_a_record() {
    let mut store = Store::new();
    init_with_owner(&mut store, "alice");
    let snapshot = store.clone();

    let r = try_buy_and_store_data(
        &mut store,
        env(),
        info("bob", coins(&[("stake", 9)])),
        10,
        "ciphertext-of-bob".to_string(),
    );
    assert_eq!(r, Err(ContractError::InvalidFunds { expected: 10, got: 9 }));
    assert_eq!(store, snapshot);
    assert_eq!(
        query_data(&store, "bob", "alice"),
        Err(ContractError::NoDataStored {})
    );
}

#[test]
fn split_denominations_are_rejected_despite_correct_total() {
    let mut store = Store::new();
    init_with_owner(&mut store, "alice");
    let snapshot = store.clone();

    let r = try_buy_and_store_data(
        &mut store,
        env(),
        info("bob", coins(&[("stake", 5), ("atom", 5)])),
        10,
        "ciphertext-of-bob".to_string(),
    );
    assert_eq!(r, Err(ContractError::InvalidFunds { expected: 10, got: 10 }));
    assert_eq!(store, snapshot);
}

#[test]
fn wrong_denomination_is_rejected() {
    let mut store = Store::new();
    init_with_owner(&mut store, "alice");

    let r = try_buy_and_store_data(
        &mut store,
        env(),
        info("bob", coins(&[("atom", 10)])),
        10,
        "ciphertext-of-bob".to_string(),
    );
    assert_eq!(r, Err(ContractError::InvalidFunds { expected: 10, got: 10 }));
}

#[test]
fn overpayment_is_rejected() {
    let mut store = Store::new();
    init_with_owner(&mut store, "alice");

    let r = try_buy_and_store_data(
        &mut store,
        env(),
        info("bob", coins(&[("stake", 11)])),
        10,
        "ciphertext-of-bob".to_string(),
    );
    assert_eq!(r, Err(ContractError::InvalidFunds { expected: 10, got: 11 }));
}

#[test]
fn second_purchase_overwrites_the_first() {
    let mut store = Store::new();
    init_with_owner(&mut store, "alice");

    let buy = |store: &mut Store, data: &str| {
        try_buy_and_store_data(
            store,
            env(),
            info("bob", coins(&[("stake", 3)])),
            3,
            data.to_string(),
        )
    };
    assert!(buy(&mut store, "first-payload").is_ok());
    assert!(buy(&mut store, "second-payload").is_ok());

    assert_eq!(
        query_data(&store, "bob", "alice"),
        Ok("second-payload".to_string())
    );
}

#[test]
fn withdraw_and_query_fail_alike_before_initialization() {
    let store = Store::new();
    assert_eq!(
        try_withdraw(&store, info("alice", vec![]), 1),
        Err(ContractError::NoDataStored {})
    );
    assert_eq!(
        query_data(&store, "bob", "alice"),
        Err(ContractError::NoDataStored {})
    );
}

#[test]
fn withdraw_and_query_fail_alike_for_non_owner() {
    let mut store = Store::new();
    init_with_owner(&mut store, "alice");
    assert_eq!(
        try_withdraw(&store, info("bob", vec![]), 1),
        Err(ContractError::Unauthorized {})
    );
    assert_eq!(
        query_data(&store, "bob", "bob"),
        Err(ContractError::Unauthorized {})
    );
}

#[test]
fn an_unauthorized_withdrawal_leaves_the_store_unchanged() {
    let mut store = Store::new();
    init_with_owner(&mut store, "alice");
    let snapshot = store.clone();
    let r = execute(
        &mut store,
        env(),
        info("bob", vec![]),
        ExecuteMsg::WithdrawFunds { amount: 7 },
    );
    assert_eq!(r, Err(ContractError::Unauthorized {}));
    assert_eq!(store, snapshot);
}

#[test]
fn an_undecodable_owner_record_reports_invalid_data() {
    let mut store = Store::new();
    store.set(owner_key(), vec![0xff, 0xfe, 0xfd]);
    assert_eq!(
        try_withdraw(&store, info("alice", vec![]), 1),
        Err(ContractError::InvalidData {})
    );
    assert_eq!(
        query_data(&store, "bob", "alice"),
        Err(ContractError::InvalidData {})
    );
}

#[test]
fn an_undecodable_payload_reports_invalid_data() {
    let mut store = Store::new();
    init_with_owner(&mut store, "alice");
    store.set(buyer_key(&"bob".to_string()), vec![0xc0, 0x00]);
    assert_eq!(
        query_data(&store, "bob", "alice"),
        Err(ContractError::InvalidData {})
    );
}

#[test]
fn reinitialization_replaces_the_owner() {
    let mut store = Store::new();
    init_with_owner(&mut store, "alice");
    init_with_owner(&mut store, "carol");
    assert_eq!(
        try_withdraw(&store, info("alice", vec![]), 1),
        Err(ContractError::Unauthorized {})
    );
    assert!(try_withdraw(&store, info("carol", vec![]), 1).is_ok());
}

#[test]
fn buyer_keys_are_namespaced() {
    assert_eq!(buyer_key(&"bob".to_string()), b"buyer_bob".to_vec());
    assert_ne!(buyer_key(&"".to_string()), owner_key());
    assert_eq!(owner_key(), b"owner".to_vec());
}

#[test]
fn price_computation_fails_explicitly_on_overflow() {
    assert_eq!(compute_cart_price(u128::MAX, 2), Err(ContractError::Overflow {}));
    assert_eq!(compute_cart_price(u128::MAX, 1), Ok(u128::MAX));
    assert_eq!(compute_cart_price(10, 1), Ok(10));
    assert_eq!(compute_cart_price(10, 0), Ok(0));
}

#[test]
fn payment_validation_requires_exactly_one_exact_coin() {
    assert!(validate_payment(&coins(&[("stake", 10)]), 10).is_ok());
    assert_eq!(
        validate_payment(&coins(&[]), 10),
        Err(ContractError::InvalidFunds { expected: 10, got: 0 })
    );
    assert_eq!(
        validate_payment(&coins(&[("atom", 10)]), 10),
        Err(ContractError::InvalidFunds { expected: 10, got: 10 })
    );
    assert_eq!(
        validate_payment(&coins(&[("stake", 4), ("stake", 6)]), 10),
        Err(ContractError::InvalidFunds { expected: 10, got: 10 })
    );
}

#[test]
fn fund_sums_add_all_denominations() {
    assert_eq!(sum_funds(&coins(&[])), 0);
    assert_eq!(sum_funds(&coins(&[("stake", 3), ("atom", 4)])), 7);
}

#[test]
fn zero_price_purchase_needs_a_zero_stake_coin() {
    let mut store = Store::new();
    init_with_owner(&mut store, "alice");
    let r = try_buy_and_store_data(
        &mut store,
        env(),
        info("bob", vec![]),
        0,
        "ciphertext-of-bob".to_string(),
    );
    assert_eq!(r, Err(ContractError::InvalidFunds { expected: 0, got: 0 }));

    let r = try_buy_and_store_data(
        &mut store,
        env(),
        info("bob", coins(&[("stake", 0)])),
        0,
        "ciphertext-of-bob".to_string(),
    );
    assert!(r.is_ok());
}

#[test]
fn decimal_rendering_is_exact() {
    assert_eq!(u128_to_dec(0), "0");
    assert_eq!(u128_to_dec(7), "7");
    assert_eq!(u128_to_dec(10), "10");
    assert_eq!(u128_to_dec(907), "907");
    assert_eq!(u128_to_dec(1000), "1000");
    assert_eq!(
        u128_to_dec(u128::MAX),
        "340282366920938463463374607431768211455"
    );
}

#[test]
fn an_empty_buyer_identity_still_gets_its_own_record() {
    let mut store = Store::new();
    init_with_owner(&mut store, "alice");
    let r = try_buy_and_store_data(
        &mut store,
        env(),
        info("", coins(&[("stake", 1)])),
        1,
        "anonymous-payload".to_string(),
    );
    assert!(r.is_ok());
    assert_eq!(
        query_data(&store, "", "alice"),
        Ok("anonymous-payload".to_string())
    );
    assert_eq!(
        query_data(&store, "bob", "alice"),
        Err(ContractError::NoDataStored {})
    );
}
