//! What the export of the accounts says.
//!
//! The export is a text of rows, each a line of fields with commas between them.
//! It has two sections. The first holds the positions: a row of column names,
//! then one row for each fund that an account holds. The second holds the
//! transactions, and starts with the first row in which `Trade Date` stands: a
//! row of column names, then one row for each transaction. Rows without a comma,
//! and rows of fewer than five fields, are passed over in both.
use crate::calendar::written_day_number;
use crate::decimal::{amount, unsigned};
use crate::holdings::share_values::{placed, ShareValues};
use crate::holdings::stock_info::{AddType, StockInfo};
use crate::holdings::store::VanguardHoldings;
use crate::holdings::symbol::fund_named;
use crate::holdings::transaction::Transaction;
use crate::holdings::values::Values;
use crate::text::{holds, pieces};
use vstd::prelude::*;

verus! {

/// Why an export cannot be read.
#[derive(Clone, Copy, PartialEq, Eq, Debug, Structural)]
pub enum ImportError {
    /// An account number is not a whole number below 2 to the 32nd.
    Number,
    /// A share count, a price, a value or a net amount is not a decimal number
    /// that can be stored.
    Amount,
    /// A trade date is not a date written as in `2024-01-31`.
    Date,
    /// The values of the unsupported funds of an account add up to more than can
    /// be stored.
    OutOfRange,
}

/// What a column of the export holds, by its name.
#[derive(Clone, Copy, PartialEq, Eq, Debug, Structural)]
pub enum Column {
    AccountNumber,
    Symbol,
    Shares,
    SharePrice,
    TotalValue,
    TradeDate,
    NetAmount,
    TransactionType,
    /// A column that is not read.
    Unknown,
}

/// The column that a name stands for.
pub open spec fn column_named(name: Seq<char>) -> Column {
    if name == "Account Number"@ {
        Column::AccountNumber
    } else if name == "Symbol"@ {
        Column::Symbol
    } else if name == "Shares"@ {
        Column::Shares
    } else if name == "Share Price"@ {
        Column::SharePrice
    } else if name == "Total Value"@ {
        Column::TotalValue
    } else if name == "Trade Date"@ {
        Column::TradeDate
    } else if name == "Net Amount"@ {
        Column::NetAmount
    } else if name == "Transaction Type"@ {
        Column::TransactionType
    } else {
        Column::Unknown
    }
}

/// The columns that a row of names stands for.
pub open spec fn columns_named(names: Seq<Seq<char>>) -> Seq<Column> {
    Seq::new(names.len(), |i: int| column_named(names[i]))
}

/// What has been read of a position.
pub struct PositionRead {
    pub account_number: Option<u32>,
    pub symbol: Option<Seq<char>>,
    pub share_price: Option<i64>,
    pub shares: Option<i64>,
    pub total_value: Option<i64>,
    /// Whether a symbol of one character or none has ended the reading of the
    /// row: such a row holds no position.
    pub stopped: bool,
}

impl PositionRead {
    /// Nothing read yet.
    pub open spec fn blank() -> PositionRead {
        PositionRead {
            account_number: None,
            symbol: None,
            share_price: None,
            shares: None,
            total_value: None,
            stopped: false,
        }
    }

    /// Whether every field of the position has been read.
    pub open spec fn complete(self) -> bool {
        self.account_number is Some && self.symbol is Some && self.share_price is Some
            && self.shares is Some && self.total_value is Some
    }
}

/// Reads one field of a position.
///
/// An account number, a share count, a price and a value must be readable as
/// such. A symbol of one character or none ends the reading of the row. Other
/// columns are passed over.
pub open spec fn position_field(read: PositionRead, column: Column, field: Seq<char>) -> Result<
    PositionRead,
    ImportError,
> {
    if read.stopped {
        Ok(read)
    } else {
        match column {
            Column::AccountNumber => match unsigned(field) {
                Some(number) => Ok(PositionRead { account_number: Some(number), ..read }),
                None => Err(ImportError::Number),
            },
            Column::Symbol => if field.len() > 1 {
                Ok(PositionRead { symbol: Some(field), ..read })
            } else {
                Ok(PositionRead { stopped: true, ..read })
            },
            Column::Shares => match amount(field) {
                Some(shares) => Ok(PositionRead { shares: Some(shares), ..read }),
                None => Err(ImportError::Amount),
            },
            Column::SharePrice => match amount(field) {
                Some(price) => Ok(PositionRead { share_price: Some(price), ..read }),
                None => Err(ImportError::Amount),
            },
            Column::TotalValue => match amount(field) {
                Some(value) => Ok(PositionRead { total_value: Some(value), ..read }),
                None => Err(ImportError::Amount),
            },
            _ => Ok(read),
        }
    }
}

/// Reads the first `count` fields of a row of the positions, each under its
/// column.
pub open spec fn position_read(fields: Seq<Seq<char>>, columns: Seq<Column>, count: nat) -> Result<
    PositionRead,
    ImportError,
>
    decreases count,
{
    if count == 0 {
        Ok(PositionRead::blank())
    } else {
        match position_read(fields, columns, (count - 1) as nat) {
            Err(error) => Err(error),
            Ok(read) => position_field(read, columns[count - 1], fields[count - 1]),
        }
    }
}

/// What has been read of a transaction.
pub struct EntryRead {
    pub account_number: Option<u32>,
    pub trade_date: Option<i32>,
    pub symbol: Option<Seq<char>>,
    pub shares: Option<i64>,
    pub net_amount: Option<i64>,
    pub transaction_type: Option<Seq<char>>,
}

impl EntryRead {
    /// Nothing read yet.
    pub open spec fn blank() -> EntryRead {
        EntryRead {
            account_number: None,
            trade_date: None,
            symbol: None,
            shares: None,
            net_amount: None,
            transaction_type: None,
        }
    }

    /// Whether every field of the transaction has been read.
    pub open spec fn complete(self) -> bool {
        self.account_number is Some && self.trade_date is Some && self.symbol is Some
            && self.shares is Some && self.net_amount is Some && self.transaction_type is Some
    }
}

/// Reads one field of a transaction.
///
/// An account number, a share count, a net amount and a trade date must be
/// readable as such. The symbol and the kind of the transaction are taken as
/// they are written. Other columns are passed over.
pub open spec fn entry_field(read: EntryRead, column: Column, field: Seq<char>) -> Result<
    EntryRead,
    ImportError,
> {
    match column {
        Column::AccountNumber => match unsigned(field) {
            Some(number) => Ok(EntryRead { account_number: Some(number), ..read }),
            None => Err(ImportError::Number),
        },
        Column::Symbol => Ok(EntryRead { symbol: Some(field), ..read }),
        Column::Shares => match amount(field) {
            Some(shares) => Ok(EntryRead { shares: Some(shares), ..read }),
            None => Err(ImportError::Amount),
        },
        Column::TradeDate => match written_day_number(field) {
            Some(day) => Ok(EntryRead { trade_date: Some(day), ..read }),
            None => Err(ImportError::Date),
        },
        Column::NetAmount => match amount(field) {
            Some(net_amount) => Ok(EntryRead { net_amount: Some(net_amount), ..read }),
            None => Err(ImportError::Amount),
        },
        Column::TransactionType => Ok(EntryRead { transaction_type: Some(field), ..read }),
        _ => Ok(read),
    }
}

/// Reads the first `count` fields of a row of the transactions, each under its
/// column.
pub open spec fn entry_read(fields: Seq<Seq<char>>, columns: Seq<Column>, count: nat) -> Result<
    EntryRead,
    ImportError,
>
    decreases count,
{
    if count == 0 {
        Ok(EntryRead::blank())
    } else {
        match entry_read(fields, columns, (count - 1) as nat) {
            Err(error) => Err(error),
            Ok(read) => entry_field(read, columns[count - 1], fields[count - 1]),
        }
    }
}

/// The number of fields of a row that stand under a column.
pub open spec fn paired(fields: Seq<Seq<char>>, columns: Seq<Column>) -> nat {
    if fields.len() <= columns.len() {
        fields.len()
    } else {
        columns.len()
    }
}

/// What has been read of an export.
pub struct Import {
    /// Whether the rows are still those of the positions.
    pub in_positions: bool,
    /// The columns of the positions, once their row of names has been read.
    pub position_columns: Option<Seq<Column>>,
    /// The columns of the transactions, once their row of names has been read.
    pub transaction_columns: Option<Seq<Column>>,
    /// The value that each account holds of each fund.
    pub accounts_values: Map<u32, Values>,
    /// The shares that each account holds of each fund.
    pub accounts_shares: Map<u32, Values>,
    /// The price of each fund.
    pub quotes: Values,
    /// The transactions, in the order of their rows.
    pub entries: Seq<EntryRead>,
}

impl Import {
    /// Nothing read yet: no account, no transaction, and every price at one
    /// dollar.
    pub open spec fn start() -> Import {
        Import {
            in_positions: true,
            position_columns: None,
            transaction_columns: None,
            accounts_values: Map::empty(),
            accounts_shares: Map::empty(),
            quotes: Values::filled(1_000_000),
            entries: Seq::empty(),
        }
    }
}

/// The vector of an account, or zeros for an account that has none yet.
pub open spec fn vector_of(accounts: Map<u32, Values>, account_number: u32) -> Values {
    if accounts.contains_key(account_number) {
        accounts[account_number]
    } else {
        Values::zero()
    }
}

/// Puts a position into what has been read, if every field of it has been read.
///
/// Its value goes into the values of its account, its share count into the
/// shares of its account, and its price into the prices. It is an error if the
/// values of the unsupported funds of the account add up to more than can be
/// stored.
pub open spec fn position_placed(state: Import, read: PositionRead) -> Result<Import, ImportError> {
    if !read.complete() {
        Ok(state)
    } else {
        let account = read.account_number->0;
        let fund = fund_named(read.symbol->0);
        let values = placed(
            vector_of(state.accounts_values, account),
            fund,
            read.total_value->0 as int,
            AddType::HoldingValue,
        );
        let shares = placed(
            vector_of(state.accounts_shares, account),
            fund,
            read.shares->0 as int,
            AddType::HoldingShares,
        );
        let quotes = placed(state.quotes, fund, read.share_price->0 as int, AddType::StockPrice);
        if !values.fits() {
            Err(ImportError::OutOfRange)
        } else {
            Ok(
                Import {
                    accounts_values: state.accounts_values.insert(account, values),
                    accounts_shares: state.accounts_shares.insert(account, shares),
                    quotes,
                    ..state
                },
            )
        }
    }
}

/// Adds a transaction to what has been read, if every field of it has been read.
pub open spec fn entry_added(state: Import, read: EntryRead) -> Import {
    if read.complete() {
        Import { entries: state.entries.push(read), ..state }
    } else {
        state
    }
}

/// Reads one row of an export.
pub open spec fn row_imported(state: Import, row: Seq<char>) -> Result<Import, ImportError> {
    if !row.contains(',') {
        Ok(state)
    } else {
        let state = Import {
            in_positions: state.in_positions && !holds(row, "Trade Date"@),
            ..state
        };
        let fields = pieces(row, ',');
        if fields.len() <= 4 {
            Ok(state)
        } else if state.in_positions {
            match state.position_columns {
                None => Ok(Import { position_columns: Some(columns_named(fields)), ..state }),
                Some(columns) => match position_read(fields, columns, paired(fields, columns)) {
                    Err(error) => Err(error),
                    Ok(read) => position_placed(state, read),
                },
            }
        } else {
            match state.transaction_columns {
                None => Ok(Import { transaction_columns: Some(columns_named(fields)), ..state }),
                Some(columns) => match entry_read(fields, columns, paired(fields, columns)) {
                    Err(error) => Err(error),
                    Ok(read) => Ok(entry_added(state, read)),
                },
            }
        }
    }
}

/// Reads the first `count` rows of an export. The first row that cannot be read
/// ends the reading with its error.
pub open spec fn rows_imported(rows: Seq<Seq<char>>, count: nat) -> Result<Import, ImportError>
    decreases count,
{
    if count == 0 {
        Ok(Import::start())
    } else {
        match rows_imported(rows, (count - 1) as nat) {
            Err(error) => Err(error),
            Ok(state) => row_imported(state, rows[count - 1]),
        }
    }
}

/// Reads an export: its rows are its lines.
pub open spec fn imported(text: Seq<char>) -> Result<Import, ImportError> {
    rows_imported(pieces(text, '\n'), pieces(text, '\n').len())
}

/// Whether a transaction is the one that was read.
pub open spec fn is_entry(transaction: Transaction, read: EntryRead) -> bool {
    &&& read.complete()
    &&& transaction.account_number == read.account_number->0
    &&& transaction.trade_date == read.trade_date->0
    &&& transaction.symbol.is_named(read.symbol->0)
    &&& transaction.shares == read.shares->0
    &&& transaction.net_amount == read.net_amount->0
    &&& transaction.transaction_type.is_named(read.transaction_type->0)
}

/// Whether the vectors of the accounts are those that were read.
pub open spec fn are_accounts(accounts: Map<u32, ShareValues>, read: Map<u32, Values>) -> bool {
    &&& accounts.dom() == read.dom()
    &&& forall|account: u32| #[trigger]
        accounts.contains_key(account) ==> accounts[account]@ == read[account]
}

/// Whether the transactions are those that were read.
pub open spec fn are_entries(transactions: Seq<Transaction>, read: Seq<EntryRead>) -> bool {
    &&& transactions.len() == read.len()
    &&& forall|i: int| 0 <= i < read.len() ==> is_entry(#[trigger] transactions[i], read[i])
}

/// Whether a store holds what was read of an export.
pub open spec fn is_import(store: VanguardHoldings, read: Import) -> bool {
    &&& are_accounts(store.accounts_values@, read.accounts_values)
    &&& are_accounts(store.accounts_shares@, read.accounts_shares)
    &&& store.quotes@ == read.quotes
    &&& are_entries(store.transactions@, read.entries)
    &&& store.distributions@ == Map::<u32, i64>::empty()
}

/// Whether a position is the one that was read.
pub open spec fn is_position(stock_info: StockInfo, read: PositionRead) -> bool {
    &&& stock_info.account_added == read.account_number is Some
    &&& read.account_number matches Some(number) ==> stock_info.account_number == number
    &&& stock_info.symbol_added == read.symbol is Some
    &&& read.symbol matches Some(name) ==> stock_info.symbol.is_named(name) && name.len() > 1
    &&& stock_info.share_price_added == read.share_price is Some
    &&& read.share_price matches Some(price) ==> stock_info.share_price == price
    &&& stock_info.shares_added == read.shares is Some
    &&& read.shares matches Some(shares) ==> stock_info.shares == shares
    &&& stock_info.total_value_added == read.total_value is Some
    &&& read.total_value matches Some(value) ==> stock_info.total_value == value
}

} // verus!
