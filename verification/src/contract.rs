use vstd::prelude::*;
use vstd::string::{StrSliceExecFns, StringExecFns};
use vstd::utf8::{decode_utf8, encode_utf8, valid_utf8};

use crate::decimal::{dec_chars, u128_to_dec};
use crate::error::ContractError;
use crate::msg::{BankSendMsg, Coin, Env, ExecuteMsg, InstantiateMsg, MessageInfo, QueryMsg,
    Response};
use crate::state::Store;

verus! {

/// One accepted unit of native currency per USD. A fixed placeholder rate;
/// the price computation takes the rate as a parameter so another rate can
/// be supplied.
pub const STAKE_PER_USD: u128 = 1;

/// The reserved store key under which the owner identity lives.
pub open spec fn owner_key_chars() -> Seq<char> {
    "owner"@
}

/// The byte form of the reserved owner key.
pub open spec fn owner_key_bytes() -> Seq<u8> {
    encode_utf8(owner_key_chars())
}

/// The store key for a buyer's record: a fixed prefix in front of the buyer
/// identity, so that buyer keys collide neither with each other nor with the
/// reserved owner key.
pub open spec fn buyer_key_chars(addr: Seq<char>) -> Seq<char> {
    "buyer_"@ + addr
}

/// The byte form of a buyer's store key.
pub open spec fn buyer_key_bytes(addr: Seq<char>) -> Seq<u8> {
    encode_utf8(buyer_key_chars(addr))
}

/// The single denomination the vault accepts as payment.
pub open spec fn stake_denom() -> Seq<char> {
    "stake"@
}

/// The sum of all attached amounts, whatever their denominations.
pub open spec fn coin_sum(funds: Seq<Coin>) -> int
    decreases funds.len(),
{
    if funds.len() == 0 {
        0
    } else {
        funds[0].amount + coin_sum(funds.drop_first())
    }
}

/// Exactly one coin is attached, of the accepted denomination, and its
/// amount equals the required price.
pub open spec fn funds_match(funds: Seq<Coin>, price: int) -> bool {
    funds.len() == 1 && funds[0].denom@ == stake_denom() && funds[0].amount == price
}

/// How the authorization check of the owner-only operations ends on store
/// `m` for `caller`: `None` when the caller is the recorded owner, otherwise
/// the error both operations report.
pub open spec fn auth_check(m: Map<Seq<u8>, Seq<u8>>, caller: Seq<char>) -> Option<ContractError> {
    if !m.contains_key(owner_key_bytes()) {
        Some(ContractError::NoDataStored {})
    } else if !valid_utf8(m[owner_key_bytes()]) {
        Some(ContractError::InvalidData {})
    } else if caller != decode_utf8(m[owner_key_bytes()]) {
        Some(ContractError::Unauthorized {})
    } else {
        None
    }
}

/// The store after initialization with `owner`.
pub open spec fn init_effect(m: Map<Seq<u8>, Seq<u8>>, owner: Seq<char>) -> Map<Seq<u8>, Seq<u8>> {
    m.insert(owner_key_bytes(), encode_utf8(owner))
}

/// The store after a successful purchase by `sender` storing `data`.
pub open spec fn buy_effect(
    m: Map<Seq<u8>, Seq<u8>>,
    sender: Seq<char>,
    data: Seq<char>,
) -> Map<Seq<u8>, Seq<u8>> {
    m.insert(buyer_key_bytes(sender), encode_utf8(data))
}

/// The reserved owner key, in executable form.
pub fn owner_key() -> (k: Vec<u8>)
    ensures
        k@ == owner_key_bytes(),
{
    "owner".as_bytes_vec()
}

/// Derives the store key for `address`'s buyer record.
pub fn buyer_key(address: &String) -> (k: Vec<u8>)
    ensures
        k@ == buyer_key_bytes(address@),
{
    let mut s: String = "buyer_".to_owned();
    s.append(address.as_str());
    s.as_str().as_bytes_vec()
}

/// Records the vault owner under the reserved key. Never fails; the host is
/// trusted to invoke this exactly once, and no caller validation happens
/// here.
pub fn instantiate(store: &mut Store, msg: InstantiateMsg) -> (r: Result<Response, ContractError>)
    ensures
        final(store)@ == init_effect(old(store)@, msg.owner@),
        r matches Ok(resp) && resp.attributes@.len() == 0 && resp.messages@.len() == 0,
{
    store.set(owner_key(), msg.owner.as_str().as_bytes_vec());
    Ok(Response::new())
}

proof fn lemma_coin_sum_nonneg(funds: Seq<Coin>)
    ensures
        coin_sum(funds) >= 0,
    decreases funds.len(),
{
    if funds.len() > 0 {
        lemma_coin_sum_nonneg(funds.drop_first());
    }
}

/// Adds all attached amounts up.
pub fn sum_funds(funds: &Vec<Coin>) -> (total: u128)
    requires
        coin_sum(funds@) <= u128::MAX,
    ensures
        total == coin_sum(funds@),
{
    let n: usize = funds.len();
    let mut total: u128 = 0;
    let mut i: usize = 0;
    proof {
        assert(funds@.subrange(0, n as int) =~= funds@);
    }
    while i < n
        invariant
            i <= n,
            n == funds.len(),
            coin_sum(funds@) <= u128::MAX,
            coin_sum(funds@) == total + coin_sum(funds@.subrange(i as int, n as int)),
        decreases n - i,
    {
        proof {
            let suffix = funds@.subrange(i as int, n as int);
            assert(suffix.drop_first() =~= funds@.subrange(i as int + 1, n as int));
            lemma_coin_sum_nonneg(funds@.subrange(i as int + 1, n as int));
        }
        total = total + funds[i].amount;
        i = i + 1;
    }
    proof {
        assert(coin_sum(funds@.subrange(n as int, n as int)) == 0);
    }
    total
}

/// Checks that the attached funds consist of exactly one coin of the
/// accepted denomination whose amount equals `required_price`; no
/// overpayment, underpayment or partial credit is accepted.
pub fn validate_payment(funds: &Vec<Coin>, required_price: u128) -> (r: Result<(), ContractError>)
    requires
        coin_sum(funds@) <= u128::MAX,
    ensures
        r is Ok <==> funds_match(funds@, required_price as int),
        r matches Err(e) ==> e == (ContractError::InvalidFunds {
            expected: required_price,
            got: coin_sum(funds@) as u128,
        }),
{
    let ok: bool = if funds.len() != 1 {
        false
    } else {
        let c = &funds[0];
        let stake: String = "stake".to_owned();
        c.denom == stake && c.amount == required_price
    };
    if ok {
        Ok(())
    } else {
        Err(ContractError::InvalidFunds { expected: required_price, got: sum_funds(funds) })
    }
}

/// Converts a USD cart price into the accepted currency at `stake_per_usd`,
/// failing explicitly instead of wrapping when the product does not fit.
pub fn compute_cart_price(cart_price_usd: u128, stake_per_usd: u128) -> (r: Result<
    u128,
    ContractError,
>)
    ensures
        r is Ok <==> cart_price_usd * stake_per_usd <= u128::MAX,
        r matches Ok(p) ==> p == cart_price_usd * stake_per_usd,
        r is Err ==> r == Err::<u128, ContractError>(ContractError::Overflow {}),
{
    match cart_price_usd.checked_mul(stake_per_usd) {
        Some(p) => Ok(p),
        None => Err(ContractError::Overflow {}),
    }
}

/// Relies on `core::str::from_utf8`: it succeeds exactly on byte slices that
/// are valid UTF-8, and then returns the text those bytes encode.
#[verifier::external_body]
fn utf8_decode(bytes: &[u8]) -> (r: Option<String>)
    ensures
        r is Some <==> valid_utf8(bytes@),
        r matches Some(s) ==> s@ == decode_utf8(bytes@),
{
    match core::str::from_utf8(bytes) {
        Ok(s) => Some(s.to_owned()),
        Err(_) => None,
    }
}

/// Reads the recorded owner and checks `caller` against it; only the owner
/// passes. Both withdrawal and query guard themselves with this check.
pub fn require_owner(store: &Store, caller: &String) -> (r: Result<String, ContractError>)
    ensures
        auth_check(store@, caller@) matches Some(e) ==> r == Err::<String, ContractError>(e),
        auth_check(store@, caller@) is None ==> (r matches Ok(owner) && owner@ == caller@
            && owner@ == decode_utf8(store@[owner_key_bytes()])),
{
    let okey = owner_key();
    match store.get(&okey) {
        None => Err(ContractError::NoDataStored {}),
        Some(bytes) => match utf8_decode(bytes.as_slice()) {
            None => Err(ContractError::InvalidData {}),
            Some(owner) => {
                if owner == *caller {
                    Ok(owner)
                } else {
                    Err(ContractError::Unauthorized {})
                }
            },
        },
    }
}

/// The human-readable confirmation recorded with a successful purchase.
pub open spec fn transfer_message_chars(
    price: int,
    sender: Seq<char>,
    contract: Seq<char>,
) -> Seq<char> {
    "Transferred "@ + dec_chars(price) + " tokens from "@ + sender + " to "@ + contract
}

fn transfer_message(price: u128, sender: &String, contract: &String) -> (m: String)
    ensures
        m@ == transfer_message_chars(price as int, sender@, contract@),
{
    let mut m: String = "Transferred ".to_owned();
    let p = u128_to_dec(price);
    m.append(p.as_str());
    m.append(" tokens from ");
    m.append(sender.as_str());
    m.append(" to ");
    m.append(contract.as_str());
    m
}

/// The response a successful purchase returns: the action tag and the
/// transfer confirmation, and no ledger instruction (the payment was already
/// escrowed to the vault by the surrounding call).
pub open spec fn buy_response_ok(
    resp: Response,
    price: int,
    sender: Seq<char>,
    contract: Seq<char>,
) -> bool {
    &&& resp.messages@.len() == 0
    &&& resp.attributes@.len() == 2
    &&& resp.attributes@[0].key@ == "action"@
    &&& resp.attributes@[0].value@ == "buy_and_store_data"@
    &&& resp.attributes@[1].key@ == "message"@
    &&& resp.attributes@[1].value@ == transfer_message_chars(price, sender, contract)
}

/// Everything a purchase guarantees: it succeeds exactly on an exact
/// payment, commits the payload write only then, and otherwise reports the
/// precise error with the store untouched.
pub open spec fn buy_post(
    old_m: Map<Seq<u8>, Seq<u8>>,
    new_m: Map<Seq<u8>, Seq<u8>>,
    r: Result<Response, ContractError>,
    sender: Seq<char>,
    contract: Seq<char>,
    funds: Seq<Coin>,
    cart_price_usd: u128,
    data: Seq<char>,
) -> bool {
    let price = cart_price_usd * STAKE_PER_USD;
    &&& (r is Ok <==> price <= u128::MAX && funds_match(funds, price))
    &&& (r matches Ok(resp) ==> new_m == buy_effect(old_m, sender, data) && buy_response_ok(
        resp,
        price,
        sender,
        contract,
    ))
    &&& (r is Err ==> new_m == old_m)
    &&& (price > u128::MAX ==> r == Err::<Response, ContractError>(ContractError::Overflow {}))
    &&& (price <= u128::MAX && !funds_match(funds, price) ==> r == Err::<
        Response,
        ContractError,
    >(ContractError::InvalidFunds { expected: price as u128, got: coin_sum(funds) as u128 }))
}

/// Validates the attached payment against the cart price and, only on an
/// exact match, stores the payload under the buyer's key, overwriting any
/// earlier payload of the same buyer. A failed check leaves the store
/// untouched.
pub fn try_buy_and_store_data(
    store: &mut Store,
    env: Env,
    info: MessageInfo,
    cart_price_usd: u128,
    encrypted_data: String,
) -> (r: Result<Response, ContractError>)
    requires
        coin_sum(info.funds@) <= u128::MAX,
    ensures
        buy_post(
            old(store)@,
            final(store)@,
            r,
            info.sender@,
            env.contract_address@,
            info.funds@,
            cart_price_usd,
            encrypted_data@,
        ),
        r is Err ==> *final(store) == *old(store),
{
    let cart_price_stake: u128 = match compute_cart_price(cart_price_usd, STAKE_PER_USD) {
        Ok(p) => p,
        Err(e) => {
            return Err(e);
        },
    };
    match validate_payment(&info.funds, cart_price_stake) {
        Err(e) => {
            return Err(e);
        },
        Ok(_) => {},
    }
    let transfer_msg = transfer_message(cart_price_stake, &info.sender, &env.contract_address);
    let key = buyer_key(&info.sender);
    store.set(key, encrypted_data.as_str().as_bytes_vec());
    Ok(
        Response::new().add_attribute("action".to_owned(), "buy_and_store_data".to_owned())
            .add_attribute("message".to_owned(), transfer_msg),
    )
}

/// The response a permitted withdrawal returns: the action tag and one
/// queued instruction moving `amount` of the accepted currency to the
/// recorded owner — never to anyone else.
pub open spec fn withdraw_response_ok(resp: Response, owner: Seq<char>, amount: u128) -> bool {
    &&& resp.attributes@.len() == 1
    &&& resp.attributes@[0].key@ == "action"@
    &&& resp.attributes@[0].value@ == "withdraw"@
    &&& resp.messages@.len() == 1
    &&& resp.messages@[0].to_address@ == owner
    &&& resp.messages@[0].amount@.len() == 1
    &&& resp.messages@[0].amount@[0].denom@ == stake_denom()
    &&& resp.messages@[0].amount@[0].amount == amount
}

/// Everything a withdrawal guarantees: the caller must be the recorded
/// owner, and on success the single queued transfer goes to that owner.
pub open spec fn withdraw_post(
    m: Map<Seq<u8>, Seq<u8>>,
    r: Result<Response, ContractError>,
    sender: Seq<char>,
    amount: u128,
) -> bool {
    match auth_check(m, sender) {
        Some(e) => r == Err::<Response, ContractError>(e),
        None => r matches Ok(resp) && withdraw_response_ok(
            resp,
            decode_utf8(m[owner_key_bytes()]),
            amount,
        ),
    }
}

/// Queues a transfer of `amount` to the recorded owner, if and only if the
/// caller is that owner. No balance bound is enforced here: the host ledger
/// fails the queued transfer if the vault's balance is insufficient.
pub fn try_withdraw(store: &Store, info: MessageInfo, amount: u128) -> (r: Result<
    Response,
    ContractError,
>)
    ensures
        withdraw_post(store@, r, info.sender@, amount),
{
    let owner = match require_owner(store, &info.sender) {
        Ok(o) => o,
        Err(e) => {
            return Err(e);
        },
    };
    let coin = Coin { denom: "stake".to_owned(), amount };
    let mut amount_vec: Vec<Coin> = Vec::new();
    amount_vec.push(coin);
    let send = BankSendMsg { to_address: owner, amount: amount_vec };
    Ok(Response::new().add_attribute("action".to_owned(), "withdraw".to_owned()).add_message(send))
}

/// What a query returns on store `m`: the buyer's decoded payload for the
/// owner, and the precise error otherwise.
pub open spec fn query_spec(
    m: Map<Seq<u8>, Seq<u8>>,
    buyer: Seq<char>,
    sender: Seq<char>,
) -> Result<Seq<char>, ContractError> {
    match auth_check(m, sender) {
        Some(e) => Err(e),
        None => {
            let k = buyer_key_bytes(buyer);
            if !m.contains_key(k) {
                Err(ContractError::NoDataStored {})
            } else if !valid_utf8(m[k]) {
                Err(ContractError::InvalidData {})
            } else {
                Ok(decode_utf8(m[k]))
            }
        },
    }
}

/// Returns the queried buyer's stored payload. Only the owner may read
/// stored payloads — buyers cannot read even their own. Read-only: the store
/// is not touched.
pub fn query(store: &Store, msg: QueryMsg) -> (r: Result<String, ContractError>)
    ensures
        msg matches QueryMsg::GetEncryptedData { buyer_address, sender } ==> (match query_spec(
            store@,
            buyer_address@,
            sender@,
        ) {
            Ok(p) => r matches Ok(s) && s@ == p,
            Err(e) => r == Err::<String, ContractError>(e),
        }),
{
    match msg {
        QueryMsg::GetEncryptedData { buyer_address, sender } => {
            match require_owner(store, &sender) {
                Err(e) => Err(e),
                Ok(_owner) => {
                    let bkey = buyer_key(&buyer_address);
                    match store.get(&bkey) {
                        None => Err(ContractError::NoDataStored {}),
                        Some(bytes) => match utf8_decode(bytes.as_slice()) {
                            None => Err(ContractError::InvalidData {}),
                            Some(data) => Ok(data),
                        },
                    }
                },
            }
        },
    }
}

/// Everything `execute` guarantees, by request kind.
pub open spec fn execute_post(
    old_m: Map<Seq<u8>, Seq<u8>>,
    new_m: Map<Seq<u8>, Seq<u8>>,
    r: Result<Response, ContractError>,
    sender: Seq<char>,
    contract: Seq<char>,
    funds: Seq<Coin>,
    msg: ExecuteMsg,
) -> bool {
    match msg {
        ExecuteMsg::BuyAndStoreData { cart_price_usd, encrypted_data } => buy_post(
            old_m,
            new_m,
            r,
            sender,
            contract,
            funds,
            cart_price_usd,
            encrypted_data@,
        ),
        ExecuteMsg::WithdrawFunds { amount } => new_m == old_m && withdraw_post(
            old_m,
            r,
            sender,
            amount,
        ),
    }
}

/// Dispatches a state-changing request. A failing invocation of either kind
/// leaves the store byte-for-byte unchanged.
pub fn execute(store: &mut Store, env: Env, info: MessageInfo, msg: ExecuteMsg) -> (r: Result<
    Response,
    ContractError,
>)
    requires
        msg matches ExecuteMsg::BuyAndStoreData { .. } ==> coin_sum(info.funds@) <= u128::MAX,
    ensures
        execute_post(
            old(store)@,
            final(store)@,
            r,
            info.sender@,
            env.contract_address@,
            info.funds@,
            msg,
        ),
        r is Err ==> *final(store) == *old(store),
{
    match msg {
        ExecuteMsg::BuyAndStoreData { cart_price_usd, encrypted_data } => try_buy_and_store_data(
            store,
            env,
            info,
            cart_price_usd,
            encrypted_data,
        ),
        ExecuteMsg::WithdrawFunds { amount } => try_withdraw(&*store, info, amount),
    }
}

/// Law: authorization is symmetric between withdrawal and query. With no
/// owner recorded, both report `NoDataStored`; with a decodable owner
/// recorded, both report `Unauthorized` for every caller other than that
/// owner.
pub proof fn lemma_auth_symmetry(
    m: Map<Seq<u8>, Seq<u8>>,
    caller: Seq<char>,
    buyer: Seq<char>,
    amount: u128,
    rw: Result<Response, ContractError>,
    rq: Result<Seq<char>, ContractError>,
)
    requires
        withdraw_post(m, rw, caller, amount),
        rq == query_spec(m, buyer, caller),
    ensures
        !m.contains_key(owner_key_bytes()) ==> rw == Err::<Response, ContractError>(
            ContractError::NoDataStored {},
        ) && rq == Err::<Seq<char>, ContractError>(ContractError::NoDataStored {}),
        m.contains_key(owner_key_bytes()) && valid_utf8(m[owner_key_bytes()]) && caller
            != decode_utf8(m[owner_key_bytes()]) ==> rw == Err::<Response, ContractError>(
            ContractError::Unauthorized {},
        ) && rq == Err::<Seq<char>, ContractError>(ContractError::Unauthorized {}),
{
}

/// A buyer's store key never collides with the reserved owner key.
pub proof fn lemma_keys_distinct(buyer: Seq<char>)
    ensures
        owner_key_bytes() != buyer_key_bytes(buyer),
{
    broadcast use vstd::utf8::encode_utf8_decode_utf8;

    assert(owner_key_chars() != buyer_key_chars(buyer)) by {
        reveal_strlit("owner");
        reveal_strlit("buyer_");
        assert(owner_key_chars()[0] == 'o');
        assert(buyer_key_chars(buyer)[0] == 'b');
    }
    if owner_key_bytes() == buyer_key_bytes(buyer) {
        assert(decode_utf8(encode_utf8(owner_key_chars())) == owner_key_chars());
        assert(decode_utf8(encode_utf8(buyer_key_chars(buyer))) == buyer_key_chars(buyer));
    }
}

/// Distinct buyers get distinct store keys: the namespacing of buyer
/// identities is collision-free.
pub proof fn lemma_buyer_keys_injective(a: Seq<char>, b: Seq<char>)
    requires
        buyer_key_bytes(a) == buyer_key_bytes(b),
    ensures
        a == b,
{
    broadcast use vstd::utf8::encode_utf8_decode_utf8;

    assert(decode_utf8(encode_utf8(buyer_key_chars(a))) == buyer_key_chars(a));
    assert(decode_utf8(encode_utf8(buyer_key_chars(b))) == buyer_key_chars(b));
    reveal_strlit("buyer_");
    assert(a =~= buyer_key_chars(a).subrange(6, buyer_key_chars(a).len() as int));
    assert(b =~= buyer_key_chars(b).subrange(6, buyer_key_chars(b).len() as int));
}

/// A purchase never touches the owner record: the owner key, once set, is
/// overwritten by no operation other than re-initialization.
pub proof fn lemma_buy_preserves_owner(m: Map<Seq<u8>, Seq<u8>>, buyer: Seq<char>, data: Seq<char>)
    ensures
        buy_effect(m, buyer, data).contains_key(owner_key_bytes()) == m.contains_key(
            owner_key_bytes(),
        ),
        m.contains_key(owner_key_bytes()) ==> buy_effect(m, buyer, data)[owner_key_bytes()]
            == m[owner_key_bytes()],
{
    lemma_keys_distinct(buyer);
}

/// Law: two successful purchases by the same buyer leave only the second
/// payload retrievable. After initialization with `owner` and two purchases
/// by `buyer`, the owner's query for `buyer` returns the second payload.
pub proof fn lemma_overwrite_semantics(
    m: Map<Seq<u8>, Seq<u8>>,
    owner: Seq<char>,
    buyer: Seq<char>,
    first: Seq<char>,
    second: Seq<char>,
)
    ensures
        ({
            let stored = buy_effect(buy_effect(init_effect(m, owner), buyer, first), buyer, second);
            query_spec(stored, buyer, owner) == Ok::<Seq<char>, ContractError>(second)
        }),
{
    broadcast use vstd::utf8::encode_utf8_valid_utf8, vstd::utf8::encode_utf8_decode_utf8;

    lemma_keys_distinct(buyer);
    let stored = buy_effect(buy_effect(init_effect(m, owner), buyer, first), buyer, second);
    assert(stored[owner_key_bytes()] == encode_utf8(owner));
    assert(decode_utf8(encode_utf8(owner)) == owner);
    assert(stored[buyer_key_bytes(buyer)] == encode_utf8(second));
    assert(decode_utf8(encode_utf8(second)) == second);
}

} // verus!
