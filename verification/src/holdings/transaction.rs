//! The transactions of the accounts.
use crate::holdings::symbol::StockSymbol;
use crate::text::same_text;
use vstd::prelude::*;

verus! {

/// The kind of a transaction, as the export names it.
#[derive(Clone, Eq, Hash, PartialEq, Debug)]
pub enum TransactionType {
    CONVERSIONOUT,
    DIVIDEND,
    REINVESTMENT,
    ADVISORFEE,
    BUY,
    CONVERSIONIN,
    SELL,
    FUNDSRECEIVED,
    SWEEPOUT,
    SWEEPIN,
    DISTRIBUTION,
    /// A kind that has no name here, with the text of the export.
    Other(String),
}

impl TransactionType {
    /// Whether this is the kind that a text names. A text that names none of the
    /// known kinds is kept as it is.
    pub open spec fn is_named(self, text: Seq<char>) -> bool {
        if text == "Conversion (outgoing)"@ {
            self is CONVERSIONOUT
        } else if text == "Dividend"@ {
            self is DIVIDEND
        } else if text == "Reinvestment"@ {
            self is REINVESTMENT
        } else if text == "Advisor fee"@ {
            self is ADVISORFEE
        } else if text == "Buy"@ {
            self is BUY
        } else if text == "Conversion (incoming)"@ {
            self is CONVERSIONIN
        } else if text == "Sell"@ {
            self is SELL
        } else if text == "Funds Received"@ {
            self is FUNDSRECEIVED
        } else if text == "Sweep out"@ {
            self is SWEEPOUT
        } else if text == "Sweep in"@ {
            self is SWEEPIN
        } else if text == "Distribution"@ {
            self is DISTRIBUTION
        } else {
            self matches TransactionType::Other(name) && name@ == text
        }
    }

    /// The kind of transaction that a text names.
    pub fn new(transaction_type: &str) -> (r: TransactionType)
        ensures
            r.is_named(transaction_type@),
    {
        if same_text(transaction_type, "Conversion (outgoing)") {
            TransactionType::CONVERSIONOUT
        } else if same_text(transaction_type, "Dividend") {
            TransactionType::DIVIDEND
        } else if same_text(transaction_type, "Reinvestment") {
            TransactionType::REINVESTMENT
        } else if same_text(transaction_type, "Advisor fee") {
            TransactionType::ADVISORFEE
        } else if same_text(transaction_type, "Buy") {
            TransactionType::BUY
        } else if same_text(transaction_type, "Conversion (incoming)") {
            TransactionType::CONVERSIONIN
        } else if same_text(transaction_type, "Sell") {
            TransactionType::SELL
        } else if same_text(transaction_type, "Funds Received") {
            TransactionType::FUNDSRECEIVED
        } else if same_text(transaction_type, "Sweep out") {
            TransactionType::SWEEPOUT
        } else if same_text(transaction_type, "Sweep in") {
            TransactionType::SWEEPIN
        } else if same_text(transaction_type, "Distribution") {
            TransactionType::DISTRIBUTION
        } else {
            TransactionType::Other(transaction_type.to_owned())
        }
    }

    /// A copy of the kind.
    pub fn duplicate(&self) -> (r: TransactionType)
        ensures
            r == *self,
    {
        match self {
            TransactionType::CONVERSIONOUT => TransactionType::CONVERSIONOUT,
            TransactionType::DIVIDEND => TransactionType::DIVIDEND,
            TransactionType::REINVESTMENT => TransactionType::REINVESTMENT,
            TransactionType::ADVISORFEE => TransactionType::ADVISORFEE,
            TransactionType::BUY => TransactionType::BUY,
            TransactionType::CONVERSIONIN => TransactionType::CONVERSIONIN,
            TransactionType::SELL => TransactionType::SELL,
            TransactionType::FUNDSRECEIVED => TransactionType::FUNDSRECEIVED,
            TransactionType::SWEEPOUT => TransactionType::SWEEPOUT,
            TransactionType::SWEEPIN => TransactionType::SWEEPIN,
            TransactionType::DISTRIBUTION => TransactionType::DISTRIBUTION,
            TransactionType::Other(name) => TransactionType::Other(name.clone()),
        }
    }
}

/// One transaction of an account.
#[derive(Clone, Debug)]
pub struct Transaction {
    /// The account that the transaction belongs to.
    pub account_number: u32,
    /// The day of the trade, as its day number: January 1 of the year 1 is day 1.
    pub trade_date: i32,
    /// The fund that was traded; empty where the transaction names none.
    pub symbol: StockSymbol,
    /// The shares that the account gained, or lost where negative, in millionths.
    pub shares: i64,
    /// The dollars that the account gained, or lost where negative, in
    /// millionths.
    pub net_amount: i64,
    /// The kind of the transaction.
    pub transaction_type: TransactionType,
}

impl Transaction {
    /// Puts a transaction together.
    pub fn new(
        account_number: u32,
        trade_date: i32,
        symbol: StockSymbol,
        shares: i64,
        net_amount: i64,
        transaction_type: TransactionType,
    ) -> (r: Transaction)
        ensures
            r == (Transaction {
                account_number,
                trade_date,
                symbol,
                shares,
                net_amount,
                transaction_type,
            }),
    {
        Transaction { account_number, trade_date, symbol, shares, net_amount, transaction_type }
    }

    /// A copy of the transaction.
    pub fn duplicate(&self) -> (r: Transaction)
        ensures
            r == *self,
    {
        Transaction {
            account_number: self.account_number,
            trade_date: self.trade_date,
            symbol: self.symbol.duplicate(),
            shares: self.shares,
            net_amount: self.net_amount,
            transaction_type: self.transaction_type.duplicate(),
        }
    }
}

} // verus!
