//! One position of an export, as it is read field by field.
use crate::holdings::symbol::StockSymbol;
use vstd::prelude::*;

verus! {

/// A position of an account in one fund: the account, the fund, the price of a
/// share, the shares held and their value. The fields are set one by one, and
/// the position is finished once every one of them has been set.
#[derive(Clone, Debug)]
pub struct StockInfo {
    /// The number of the account.
    pub account_number: u32,
    /// The fund.
    pub symbol: StockSymbol,
    /// The price of a share, in millionths of a dollar.
    pub share_price: i64,
    /// The shares held, in millionths of a share.
    pub shares: i64,
    /// The value of the shares held, in millionths of a dollar.
    pub total_value: i64,
    /// Whether the account number has been set.
    pub account_added: bool,
    /// Whether the fund has been set.
    pub symbol_added: bool,
    /// Whether the price has been set.
    pub share_price_added: bool,
    /// Whether the shares have been set.
    pub shares_added: bool,
    /// Whether the value has been set.
    pub total_value_added: bool,
}

impl StockInfo {
    /// A copy of the position.
    pub fn duplicate(&self) -> (r: StockInfo)
        ensures
            r == *self,
    {
        StockInfo {
            account_number: self.account_number,
            symbol: self.symbol.duplicate(),
            share_price: self.share_price,
            shares: self.shares,
            total_value: self.total_value,
            account_added: self.account_added,
            symbol_added: self.symbol_added,
            share_price_added: self.share_price_added,
            shares_added: self.shares_added,
            total_value_added: self.total_value_added,
        }
    }

    /// The position of which nothing has been set: zeros and the empty symbol.
    pub fn new() -> (r: StockInfo)
        ensures
            r == (StockInfo {
                account_number: 0,
                symbol: StockSymbol::Empty,
                share_price: 0,
                shares: 0,
                total_value: 0,
                account_added: false,
                symbol_added: false,
                share_price_added: false,
                shares_added: false,
                total_value_added: false,
            }),
    {
        StockInfo {
            account_number: 0,
            symbol: StockSymbol::Empty,
            share_price: 0,
            shares: 0,
            total_value: 0,
            account_added: false,
            symbol_added: false,
            share_price_added: false,
            shares_added: false,
            total_value_added: false,
        }
    }

    /// Sets the number of the account.
    pub fn add_account(&mut self, account_number: u32)
        ensures
            *final(self) == (StockInfo { account_number, account_added: true, ..*old(self) }),
    {
        self.account_number = account_number;
        self.account_added = true;
    }

    /// Sets the fund.
    pub fn add_symbol(&mut self, symbol: StockSymbol)
        ensures
            *final(self) == (StockInfo { symbol, symbol_added: true, ..*old(self) }),
    {
        self.symbol = symbol;
        self.symbol_added = true;
    }

    /// Sets the price of a share.
    pub fn add_share_price(&mut self, share_price: i64)
        ensures
            *final(self) == (StockInfo { share_price, share_price_added: true, ..*old(self) }),
    {
        self.share_price = share_price;
        self.share_price_added = true;
    }

    /// Sets the shares held.
    pub fn add_shares(&mut self, share_num: i64)
        ensures
            *final(self) == (StockInfo { shares: share_num, shares_added: true, ..*old(self) }),
    {
        self.shares = share_num;
        self.shares_added = true;
    }

    /// Sets the value of the shares held.
    pub fn add_total_value(&mut self, total_value: i64)
        ensures
            *final(self) == (StockInfo { total_value, total_value_added: true, ..*old(self) }),
    {
        self.total_value = total_value;
        self.total_value_added = true;
    }

    /// Whether every field has been set.
    pub open spec fn is_finished(&self) -> bool {
        self.account_added && self.symbol_added && self.share_price_added && self.shares_added
            && self.total_value_added
    }

    /// Whether every field has been set.
    pub fn finished(&self) -> (r: bool)
        ensures
            r == self.is_finished(),
    {
        self.account_added && self.symbol_added && self.share_price_added && self.shares_added
            && self.total_value_added
    }
}

impl Default for StockInfo {
    fn default() -> (r: StockInfo)
        ensures
            r == (StockInfo {
                account_number: 0,
                symbol: StockSymbol::Empty,
                share_price: 0,
                shares: 0,
                total_value: 0,
                account_added: false,
                symbol_added: false,
                share_price_added: false,
                shares_added: false,
                total_value_added: false,
            }),
    {
        StockInfo::new()
    }
}

/// Which amount of a position goes into a vector.
#[derive(Clone, Copy, PartialEq, Eq, Debug, Structural)]
pub enum AddType {
    /// The price of a share, for a vector of prices.
    StockPrice,
    /// The value held, for a vector of values.
    HoldingValue,
    /// The shares held, for a vector of share counts.
    HoldingShares,
}

} // verus!
