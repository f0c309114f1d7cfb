use vstd::prelude::*;

verus! {

/// A marker for a bare purchase request.
#[derive(Debug, Clone, PartialEq, Eq)]
pub struct BuyMsg {}

/// The initialization request: records the vault owner.
#[derive(Debug, Clone, PartialEq, Eq)]
pub struct InstantiateMsg {
    pub owner: String,
}

/// A bare withdrawal request.
#[derive(Debug, Clone, PartialEq, Eq)]
pub struct WithdrawFundsMsg {
    pub amount: u128,
}

/// The two state-changing operations of the vault.
#[derive(Debug, Clone, PartialEq, Eq)]
pub enum ExecuteMsg {
    BuyAndStoreData { cart_price_usd: u128, encrypted_data: String },
    WithdrawFunds { amount: u128 },
}

/// The shape of a query answer: a stored payload.
#[derive(Debug, Clone, PartialEq, Eq)]
pub struct EncryptedData {
    pub address: Vec<u8>,
}

/// The read-only operation of the vault.
#[derive(Debug, Clone, PartialEq, Eq)]
pub enum QueryMsg {
    GetEncryptedData { buyer_address: String, sender: String },
}

/// An amount of one native-currency denomination.
#[derive(Debug, Clone, PartialEq, Eq)]
pub struct Coin {
    pub denom: String,
    pub amount: u128,
}

/// What the host supplies with a request: the caller and the attached funds.
#[derive(Debug, Clone, PartialEq, Eq)]
pub struct MessageInfo {
    pub sender: String,
    pub funds: Vec<Coin>,
}

/// What the host supplies about the invocation context.
#[derive(Debug, Clone, PartialEq, Eq)]
pub struct Env {
    pub contract_address: String,
}

/// A transfer instruction queued for the host ledger: move `amount` from the
/// vault to `to_address`. The ledger itself fails the transfer if the vault's
/// balance is insufficient.
#[derive(Debug, Clone, PartialEq, Eq)]
pub struct BankSendMsg {
    pub to_address: String,
    pub amount: Vec<Coin>,
}

/// One observability attribute of a response.
#[derive(Debug, Clone, PartialEq, Eq)]
pub struct Attribute {
    pub key: String,
    pub value: String,
}

/// A successful operation's result: observability attributes plus any
/// transfer instructions for the host ledger to execute.
#[derive(Debug, Clone, PartialEq, Eq)]
pub struct Response {
    pub attributes: Vec<Attribute>,
    pub messages: Vec<BankSendMsg>,
}

impl Response {
    /// An empty response.
    pub fn new() -> (r: Response)
        ensures
            r.attributes@ == Seq::<Attribute>::empty(),
            r.messages@ == Seq::<BankSendMsg>::empty(),
    {
        Response { attributes: Vec::new(), messages: Vec::new() }
    }

    /// Appends one attribute.
    pub fn add_attribute(self, key: String, value: String) -> (r: Response)
        ensures
            r.attributes@ == self.attributes@.push((Attribute { key, value })),
            r.messages@ == self.messages@,
    {
        let mut attributes = self.attributes;
        attributes.push(Attribute { key, value });
        Response { attributes, messages: self.messages }
    }

    /// Appends one transfer instruction.
    pub fn add_message(self, msg: BankSendMsg) -> (r: Response)
        ensures
            r.attributes@ == self.attributes@,
            r.messages@ == self.messages@.push(msg),
    {
        let mut messages = self.messages;
        messages.push(msg);
        Response { attributes: self.attributes, messages }
    }
}

} // verus!
