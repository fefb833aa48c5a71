//! Names of exchanges, accounts, currencies and fills.
//!
//! Each identifier is a text; two identifiers are the same when their texts
//! are. Contracts speak of an identifier through its view, the sequence of its
//! characters.

use vstd::prelude::*;

verus! {

/// Name of an exchange.
#[derive(Debug, PartialEq, Eq, Hash)]
pub struct ExchangeId(pub String);

impl View for ExchangeId {
    type V = Seq<char>;

    open spec fn view(&self) -> Seq<char> {
        self.0@
    }
}

impl Clone for ExchangeId {
    fn clone(&self) -> (r: Self)
        ensures
            r == *self,
    {
        ExchangeId(self.0.clone())
    }
}

impl ExchangeId {
    /// The exchange of the given name.
    pub fn new(name: &str) -> (r: Self)
        ensures
            r@ == name@,
    {
        ExchangeId(name.to_owned())
    }

    /// The name.
    pub fn as_str(&self) -> (r: &str)
        ensures
            r@ == self@,
    {
        self.0.as_str()
    }

    /// Whether both name the same exchange.
    pub fn equals(&self, other: &Self) -> (r: bool)
        ensures
            r == (self@ == other@),
    {
        self.0 == other.0
    }
}

/// Code of a currency.
#[derive(Debug, PartialEq, Eq, Hash)]
pub struct CurrencyCode(pub String);

impl View for CurrencyCode {
    type V = Seq<char>;

    open spec fn view(&self) -> Seq<char> {
        self.0@
    }
}

impl Clone for CurrencyCode {
    fn clone(&self) -> (r: Self)
        ensures
            r == *self,
    {
        CurrencyCode(self.0.clone())
    }
}

impl CurrencyCode {
    /// The currency of the given code.
    pub fn new(code: &str) -> (r: Self)
        ensures
            r@ == code@,
    {
        CurrencyCode(code.to_owned())
    }

    /// The code.
    pub fn as_str(&self) -> (r: &str)
        ensures
            r@ == self@,
    {
        self.0.as_str()
    }

    /// Whether both name the same currency.
    pub fn equals(&self, other: &Self) -> (r: bool)
        ensures
            r == (self@ == other@),
    {
        self.0 == other.0
    }
}

/// Name of a currency pair, such as a base and a quote currency traded
/// against each other.
#[derive(Debug, PartialEq, Eq, Hash)]
pub struct CurrencyPair(pub String);

impl View for CurrencyPair {
    type V = Seq<char>;

    open spec fn view(&self) -> Seq<char> {
        self.0@
    }
}

impl Clone for CurrencyPair {
    fn clone(&self) -> (r: Self)
        ensures
            r == *self,
    {
        CurrencyPair(self.0.clone())
    }
}

impl CurrencyPair {
    /// The pair of the given name.
    pub fn new(name: &str) -> (r: Self)
        ensures
            r@ == name@,
    {
        CurrencyPair(name.to_owned())
    }

    /// The name.
    pub fn as_str(&self) -> (r: &str)
        ensures
            r@ == self@,
    {
        self.0.as_str()
    }

    /// Whether both name the same pair.
    pub fn equals(&self, other: &Self) -> (r: bool)
        ensures
            r == (self@ == other@),
    {
        self.0 == other.0
    }
}

/// Identifier that the engine gives to one fill of one of its orders.
#[derive(Debug, PartialEq, Eq, Hash)]
pub struct ClientOrderFillId(pub String);

impl View for ClientOrderFillId {
    type V = Seq<char>;

    open spec fn view(&self) -> Seq<char> {
        self.0@
    }
}

impl Clone for ClientOrderFillId {
    fn clone(&self) -> (r: Self)
        ensures
            r == *self,
    {
        ClientOrderFillId(self.0.clone())
    }
}

impl ClientOrderFillId {
    /// The fill of the given identifier.
    pub fn new(id: &str) -> (r: Self)
        ensures
            r@ == id@,
    {
        ClientOrderFillId(id.to_owned())
    }

    /// The identifier.
    pub fn as_str(&self) -> (r: &str)
        ensures
            r@ == self@,
    {
        self.0.as_str()
    }

    /// Whether both name the same fill.
    pub fn equals(&self, other: &Self) -> (r: bool)
        ensures
            r == (self@ == other@),
    {
        self.0 == other.0
    }
}

/// One account on one exchange.
#[derive(Debug, PartialEq, Eq, Hash)]
pub struct ExchangeAccountId {
    pub exchange_id: ExchangeId,
    pub account_number: u8,
}

impl View for ExchangeAccountId {
    type V = (Seq<char>, u8);

    open spec fn view(&self) -> (Seq<char>, u8) {
        (self.exchange_id@, self.account_number)
    }
}

impl Clone for ExchangeAccountId {
    fn clone(&self) -> (r: Self)
        ensures
            r == *self,
    {
        ExchangeAccountId {
            exchange_id: self.exchange_id.clone(),
            account_number: self.account_number,
        }
    }
}

impl ExchangeAccountId {
    /// The account of the given number on the named exchange.
    pub fn new(exchange_id: &str, account_number: u8) -> (r: Self)
        ensures
            r@ == (exchange_id@, account_number),
    {
        ExchangeAccountId { exchange_id: ExchangeId::new(exchange_id), account_number }
    }

    /// Whether both name the same account.
    pub fn equals(&self, other: &Self) -> (r: bool)
        ensures
            r == (self@ == other@),
    {
        self.exchange_id.equals(&other.exchange_id) && self.account_number
            == other.account_number
    }
}

/// A trading place: one currency pair on one exchange account. Balance changes
/// are kept apart by trading place.
#[derive(Debug, PartialEq, Eq, Hash)]
pub struct TradePlaceAccount {
    pub exchange_account_id: ExchangeAccountId,
    pub currency_pair: CurrencyPair,
}

impl View for TradePlaceAccount {
    type V = ((Seq<char>, u8), Seq<char>);

    open spec fn view(&self) -> ((Seq<char>, u8), Seq<char>) {
        (self.exchange_account_id@, self.currency_pair@)
    }
}

impl Clone for TradePlaceAccount {
    fn clone(&self) -> (r: Self)
        ensures
            r == *self,
    {
        TradePlaceAccount {
            exchange_account_id: self.exchange_account_id.clone(),
            currency_pair: self.currency_pair.clone(),
        }
    }
}

impl TradePlaceAccount {
    /// The trading place of the given pair on the given account.
    pub fn new(exchange_account_id: ExchangeAccountId, currency_pair: CurrencyPair) -> (r: Self)
        ensures
            r.exchange_account_id == exchange_account_id,
            r.currency_pair == currency_pair,
    {
        TradePlaceAccount { exchange_account_id, currency_pair }
    }

    /// Whether both name the same trading place.
    pub fn equals(&self, other: &Self) -> (r: bool)
        ensures
            r == (self@ == other@),
    {
        self.exchange_account_id.equals(&other.exchange_account_id) && self.currency_pair.equals(
            &other.currency_pair,
        )
    }
}

} // verus!
