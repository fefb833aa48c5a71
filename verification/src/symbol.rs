//! Which currency of a pair is the base and which the quote.

use crate::identifiers::CurrencyCode;
use crate::identifiers::CurrencyPair;
use crate::identifiers::ExchangeAccountId;
use vstd::prelude::*;

verus! {

/// A currency pair traded on an exchange account: its base currency is
/// bought and sold, its quote currency pays for it. The two differ.
#[derive(Debug, PartialEq, Eq)]
pub struct Symbol {
    exchange_account_id: ExchangeAccountId,
    currency_pair: CurrencyPair,
    base_currency_code: CurrencyCode,
    quote_currency_code: CurrencyCode,
}

impl Clone for Symbol {
    fn clone(&self) -> (r: Self)
        ensures
            r == *self,
    {
        proof {
            use_type_invariant(self);
        }
        Symbol {
            exchange_account_id: self.exchange_account_id.clone(),
            currency_pair: self.currency_pair.clone(),
            base_currency_code: self.base_currency_code.clone(),
            quote_currency_code: self.quote_currency_code.clone(),
        }
    }
}

impl Symbol {
    #[verifier::type_invariant]
    spec fn two_currencies(self) -> bool {
        self.base_currency_code@ != self.quote_currency_code@
    }

    /// The exchange account on which the pair is traded.
    pub closed spec fn account(self) -> ExchangeAccountId {
        self.exchange_account_id
    }

    /// The pair.
    pub closed spec fn pair(self) -> CurrencyPair {
        self.currency_pair
    }

    /// The base currency.
    pub closed spec fn base(self) -> CurrencyCode {
        self.base_currency_code
    }

    /// The quote currency.
    pub closed spec fn quote(self) -> CurrencyCode {
        self.quote_currency_code
    }

    /// Whether the base and the quote currency differ, as they do in every
    /// symbol that was built.
    pub open spec fn valid(self) -> bool {
        self.base()@ != self.quote()@
    }

    /// Whether this is the symbol of the given pair on the given account.
    pub open spec fn is_for(self, account: (Seq<char>, u8), pair: Seq<char>) -> bool {
        self.account()@ == account && self.pair()@ == pair
    }

    /// The symbol of the given pair, or `None` where the base and the quote
    /// currency are the same.
    pub fn new(
        exchange_account_id: ExchangeAccountId,
        currency_pair: CurrencyPair,
        base_currency_code: CurrencyCode,
        quote_currency_code: CurrencyCode,
    ) -> (r: Option<Self>)
        ensures
            base_currency_code@ == quote_currency_code@ ==> r is None,
            base_currency_code@ != quote_currency_code@ ==> (r matches Some(symbol) && {
                &&& symbol.account() == exchange_account_id
                &&& symbol.pair() == currency_pair
                &&& symbol.base() == base_currency_code
                &&& symbol.quote() == quote_currency_code
            }),
    {
        if base_currency_code.equals(&quote_currency_code) {
            None
        } else {
            Some(
                Symbol {
                    exchange_account_id,
                    currency_pair,
                    base_currency_code,
                    quote_currency_code,
                },
            )
        }
    }

    /// The exchange account on which the pair is traded.
    pub fn exchange_account_id(&self) -> (r: &ExchangeAccountId)
        ensures
            *r == self.account(),
    {
        &self.exchange_account_id
    }

    /// The pair.
    pub fn currency_pair(&self) -> (r: &CurrencyPair)
        ensures
            *r == self.pair(),
    {
        &self.currency_pair
    }

    /// The base currency.
    pub fn base_currency_code(&self) -> (r: &CurrencyCode)
        ensures
            *r == self.base(),
            self.valid(),
    {
        proof {
            use_type_invariant(self);
        }
        &self.base_currency_code
    }

    /// The quote currency.
    pub fn quote_currency_code(&self) -> (r: &CurrencyCode)
        ensures
            *r == self.quote(),
            self.valid(),
    {
        proof {
            use_type_invariant(self);
        }
        &self.quote_currency_code
    }
}

/// Whether none of the first `upto` symbols is the symbol of the given pair
/// on the given account.
pub open spec fn none_before(
    symbols: Seq<Symbol>,
    upto: int,
    account: (Seq<char>, u8),
    pair: Seq<char>,
) -> bool {
    forall|j: int| 0 <= j < upto ==> !(#[trigger] symbols[j]).is_for(account, pair)
}

/// The first symbol of the given pair on the given account, if there is one.
pub open spec fn first_symbol(symbols: Seq<Symbol>, account: (Seq<char>, u8), pair: Seq<char>)
    -> Option<Symbol> {
    if exists|i: int|
        0 <= i < symbols.len() && (#[trigger] symbols[i]).is_for(account, pair) && none_before(
            symbols,
            i,
            account,
            pair,
        ) {
        let i = choose|i: int|
            0 <= i < symbols.len() && (#[trigger] symbols[i]).is_for(account, pair)
                && none_before(symbols, i, account, pair);
        Some(symbols[i])
    } else {
        None
    }
}

/// The symbols that the engine trades.
pub struct CurrencyPairToSymbolConverter {
    symbols: Vec<Symbol>,
}

impl View for CurrencyPairToSymbolConverter {
    type V = Seq<Symbol>;

    closed spec fn view(&self) -> Seq<Symbol> {
        self.symbols@
    }
}

impl CurrencyPairToSymbolConverter {
    /// The symbol of the given pair on the given account: the first of the
    /// symbols that is for them, if there is one.
    pub open spec fn symbol_of(self, account: (Seq<char>, u8), pair: Seq<char>) -> Option<Symbol> {
        first_symbol(self@, account, pair)
    }

    /// The converter that knows the given symbols.
    pub fn new(symbols: Vec<Symbol>) -> (r: Self)
        ensures
            r@ == symbols@,
    {
        CurrencyPairToSymbolConverter { symbols }
    }

    /// The symbol of the given pair on the given account, or `None` where
    /// no symbol is known for them.
    pub fn get_symbol(&self, exchange_account_id: &ExchangeAccountId, currency_pair: &CurrencyPair)
        -> (r: Option<&Symbol>)
        ensures
            match r {
                Some(symbol) => self.symbol_of(exchange_account_id@, currency_pair@) == Some(
                    *symbol,
                ) && symbol.valid(),
                None => self.symbol_of(exchange_account_id@, currency_pair@) is None,
            },
            r is Some <==> exists|i: int|
                0 <= i < self@.len() && (#[trigger] self@[i]).is_for(
                    exchange_account_id@,
                    currency_pair@,
                ),
    {
        let mut i: usize = 0;
        while i < self.symbols.len()
            invariant
                i <= self.symbols.len(),
                none_before(self@, i as int, exchange_account_id@, currency_pair@),
            decreases self.symbols.len() - i,
        {
            let symbol = &self.symbols[i];
            if symbol.exchange_account_id.equals(exchange_account_id)
                && symbol.currency_pair.equals(currency_pair) {
                proof {
                    use_type_invariant(symbol);
                    lemma_first_symbol(self@, i as int, exchange_account_id@, currency_pair@);
                }
                return Some(symbol);
            }
            i = i + 1;
        }
        None
    }
}

/// The first symbol for a pair is the one before which there is none for it.
pub proof fn lemma_first_symbol(
    symbols: Seq<Symbol>,
    i: int,
    account: (Seq<char>, u8),
    pair: Seq<char>,
)
    requires
        0 <= i < symbols.len(),
        symbols[i].is_for(account, pair),
        none_before(symbols, i, account, pair),
    ensures
        first_symbol(symbols, account, pair) == Some(symbols[i]),
{
    let k = choose|k: int|
        0 <= k < symbols.len() && (#[trigger] symbols[k]).is_for(account, pair) && none_before(
            symbols,
            k,
            account,
            pair,
        );
    if k < i {
        assert(!symbols[k].is_for(account, pair));
    }
    if i < k {
        assert(!symbols[i].is_for(account, pair));
    }
}

} // verus!
