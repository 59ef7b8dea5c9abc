//! The plain values exchanged with the host that runs the ledger: who calls
//! and with which funds attached, and what the host is asked to do once a
//! command has succeeded.

use vstd::prelude::*;

verus! {

/// An amount of one denomination, in its smallest unit.
#[derive(Debug, PartialEq, Eq)]
pub struct Coin {
    pub denom: String,
    pub amount: u128,
}

pub struct CoinView {
    pub denom: Seq<char>,
    pub amount: u128,
}

impl View for Coin {
    type V = CoinView;

    open spec fn view(&self) -> CoinView {
        CoinView { denom: self.denom@, amount: self.amount }
    }
}

impl Clone for Coin {
    fn clone(&self) -> (c: Self)
        ensures
            c == *self,
    {
        Coin { denom: self.denom.clone(), amount: self.amount }
    }
}

impl Coin {
    /// The coin of `amount` units of `denom`.
    pub fn new(amount: u128, denom: &str) -> (c: Self)
        ensures
            c@ == (CoinView { denom: denom@, amount }),
    {
        Coin { denom: denom.to_owned(), amount }
    }
}

/// The views of a list of coins, in order.
pub open spec fn coins_view(coins: Seq<Coin>) -> Seq<CoinView> {
    coins.map_values(|c: Coin| c@)
}

/// The authenticated caller of a command and the funds attached to the call.
#[derive(Debug, PartialEq, Eq)]
pub struct MessageInfo {
    pub sender: String,
    pub funds: Vec<Coin>,
}

pub struct MessageInfoView {
    pub sender: Seq<char>,
    pub funds: Seq<CoinView>,
}

impl View for MessageInfo {
    type V = MessageInfoView;

    open spec fn view(&self) -> MessageInfoView {
        MessageInfoView { sender: self.sender@, funds: coins_view(self.funds@) }
    }
}

/// A transfer out of the ledger's custody, for the host to carry out.
#[derive(Debug, PartialEq, Eq)]
pub enum BankMsg {
    Send { to_address: String, amount: Vec<Coin> },
}

pub enum BankMsgView {
    Send { to_address: Seq<char>, amount: Seq<CoinView> },
}

impl View for BankMsg {
    type V = BankMsgView;

    open spec fn view(&self) -> BankMsgView {
        match self {
            BankMsg::Send { to_address, amount } => BankMsgView::Send {
                to_address: to_address@,
                amount: coins_view(amount@),
            },
        }
    }
}

/// The transfer of `amount` units of `denom` to `to_address`.
pub open spec fn send_one(to_address: Seq<char>, denom: Seq<char>, amount: u128) -> BankMsgView {
    BankMsgView::Send { to_address, amount: seq![CoinView { denom, amount }] }
}

impl BankMsg {
    /// Asks the host to send `amount` units of `denom` to `to_address`.
    pub fn send(to_address: String, denom: &str, amount: u128) -> (msg: Self)
        ensures
            msg@ == send_one(to_address@, denom@, amount),
    {
        let mut coins: Vec<Coin> = Vec::new();
        coins.push(Coin::new(amount, denom));
        let msg = BankMsg::Send { to_address, amount: coins };
        assert(msg@->amount =~= seq![CoinView { denom: denom@, amount }]);
        msg
    }
}

/// A key and a value that describe what a command did.
#[derive(Debug, PartialEq, Eq)]
pub struct Attribute {
    pub key: String,
    pub value: String,
}

pub struct AttributeView {
    pub key: Seq<char>,
    pub value: Seq<char>,
}

impl View for Attribute {
    type V = AttributeView;

    open spec fn view(&self) -> AttributeView {
        AttributeView { key: self.key@, value: self.value@ }
    }
}

/// What a successful command hands back: the transfers that the host carries
/// out, and the attributes that describe the command, each list in the order
/// in which it was filled.
#[derive(Debug, PartialEq, Eq)]
pub struct Response {
    pub messages: Vec<BankMsg>,
    pub attributes: Vec<Attribute>,
}

pub struct ResponseView {
    pub messages: Seq<BankMsgView>,
    pub attributes: Seq<AttributeView>,
}

impl ResponseView {
    /// The response that asks for nothing and says nothing.
    pub open spec fn empty() -> ResponseView {
        ResponseView { messages: Seq::empty(), attributes: Seq::empty() }
    }

    pub open spec fn add_message(self, msg: BankMsgView) -> ResponseView {
        ResponseView { messages: self.messages.push(msg), attributes: self.attributes }
    }

    pub open spec fn add_attribute(self, key: Seq<char>, value: Seq<char>) -> ResponseView {
        ResponseView {
            messages: self.messages,
            attributes: self.attributes.push(AttributeView { key, value }),
        }
    }
}

impl View for Response {
    type V = ResponseView;

    open spec fn view(&self) -> ResponseView {
        ResponseView {
            messages: self.messages@.map_values(|m: BankMsg| m@),
            attributes: self.attributes@.map_values(|a: Attribute| a@),
        }
    }
}

impl Response {
    /// The empty response.
    pub fn new() -> (r: Self)
        ensures
            r@ == ResponseView::empty(),
    {
        let r = Response { messages: Vec::new(), attributes: Vec::new() };
        assert(r@.messages =~= Seq::empty());
        assert(r@.attributes =~= Seq::empty());
        r
    }

    /// Appends a transfer.
    pub fn add_message(self, msg: BankMsg) -> (r: Self)
        ensures
            r@ == self@.add_message(msg@),
    {
        let mut r = self;
        r.messages.push(msg);
        assert(r@.messages =~= self@.messages.push(msg@));
        r
    }

    /// Appends an attribute.
    pub fn add_attribute(self, key: &str, value: String) -> (r: Self)
        ensures
            r@ == self@.add_attribute(key@, value@),
    {
        let mut r = self;
        let attribute = Attribute { key: key.to_owned(), value };
        r.attributes.push(attribute);
        assert(r@.attributes =~= self@.attributes.push(attribute@));
        r
    }
}

impl Default for Response {
    fn default() -> (r: Self)
        ensures
            r@ == ResponseView::empty(),
    {
        Response::new()
    }
}

} // verus!
