//! Reading the export of the accounts.
use crate::calendar::read_day;
use crate::decimal::{read_amount, read_unsigned};
use crate::fixed::checked_sum;
use crate::holdings::export::{
    are_accounts, are_entries, column_named, columns_named, entry_read, imported, is_entry,
    is_import, is_position, paired, position_placed, position_read, row_imported, rows_imported,
    vector_of, Column, EntryRead, Import, ImportError, PositionRead,
};
use crate::holdings::share_values::{with_position, ShareValues};
use crate::holdings::stock_info::{AddType, StockInfo};
use crate::holdings::store::VanguardHoldings;
use crate::holdings::symbol::{fund_named, StockSymbol};
use crate::holdings::transaction::{Transaction, TransactionType};
use crate::holdings::values::Values;
use crate::text::{chars_of, contains, holds, pieces, same_text, search, split, text_of, texts_of};
use std::collections::HashMap;
use vstd::prelude::*;

verus! {

broadcast use vstd::std_specs::hash::group_hash_axioms;

/// The column that a name stands for.
fn column_of(name: &Vec<char>) -> (r: Column)
    ensures
        r == column_named(name@),
{
    let text = text_of(name);
    if same_text(text.as_str(), "Account Number") {
        Column::AccountNumber
    } else if same_text(text.as_str(), "Symbol") {
        Column::Symbol
    } else if same_text(text.as_str(), "Shares") {
        Column::Shares
    } else if same_text(text.as_str(), "Share Price") {
        Column::SharePrice
    } else if same_text(text.as_str(), "Total Value") {
        Column::TotalValue
    } else if same_text(text.as_str(), "Trade Date") {
        Column::TradeDate
    } else if same_text(text.as_str(), "Net Amount") {
        Column::NetAmount
    } else if same_text(text.as_str(), "Transaction Type") {
        Column::TransactionType
    } else {
        Column::Unknown
    }
}

/// The columns that a row of names stands for.
fn columns_of(names: &Vec<Vec<char>>) -> (r: Vec<Column>)
    ensures
        r@ == columns_named(texts_of(names@)),
{
    let mut columns: Vec<Column> = Vec::new();
    let mut i: usize = 0;
    while i < names.len()
        invariant
            i <= names@.len(),
            columns@.len() == i,
            forall|k: int| 0 <= k < i ==> columns@[k] == column_named(names@[k]@),
        decreases names@.len() - i,
    {
        columns.push(column_of(&names[i]));
        i = i + 1;
    }
    assert(columns@ =~= columns_named(texts_of(names@)));
    columns
}

/// Once a field of a position cannot be read, the row cannot be read.
proof fn lemma_position_error_stays(
    fields: Seq<Seq<char>>,
    columns: Seq<Column>,
    at: nat,
    count: nat,
)
    requires
        at <= count,
        position_read(fields, columns, at) is Err,
    ensures
        position_read(fields, columns, count) == position_read(fields, columns, at),
    decreases count - at,
{
    if at < count {
        lemma_position_error_stays(fields, columns, at, (count - 1) as nat);
    }
}

/// Once a field of a transaction cannot be read, the row cannot be read.
proof fn lemma_entry_error_stays(fields: Seq<Seq<char>>, columns: Seq<Column>, at: nat, count: nat)
    requires
        at <= count,
        entry_read(fields, columns, at) is Err,
    ensures
        entry_read(fields, columns, count) == entry_read(fields, columns, at),
    decreases count - at,
{
    if at < count {
        lemma_entry_error_stays(fields, columns, at, (count - 1) as nat);
    }
}

/// Reads a row of the positions, each field under its column.
fn read_position(fields: &Vec<Vec<char>>, columns: &Vec<Column>) -> (r: Result<
    StockInfo,
    ImportError,
>)
    ensures
        match position_read(
            texts_of(fields@),
            columns@,
            paired(texts_of(fields@), columns@),
        ) {
            Ok(read) => r matches Ok(stock_info) && is_position(stock_info, read),
            Err(error) => r matches Err(e) && e == error,
        },
{
    let count: usize = if fields.len() <= columns.len() {
        fields.len()
    } else {
        columns.len()
    };
    let mut stock_info = StockInfo::new();
    let mut stopped = false;
    let ghost mut read = PositionRead::blank();
    let mut i: usize = 0;
    while i < count
        invariant
            i <= count,
            count == paired(texts_of(fields@), columns@),
            position_read(texts_of(fields@), columns@, i as nat) == Ok::<
                PositionRead,
                ImportError,
            >(read),
            read.stopped == stopped,
            is_position(stock_info, read),
        decreases count - i,
    {
        let field = &fields[i];
        assert(texts_of(fields@)[i as int] == field@);
        if !stopped {
            match columns[i] {
                Column::AccountNumber => {
                    match read_unsigned(field) {
                        Some(number) => {
                            stock_info.add_account(number);
                            proof {
                                read = PositionRead { account_number: Some(number), ..read };
                            }
                        },
                        None => {
                            proof {
                                lemma_position_error_stays(
                                    texts_of(fields@),
                                    columns@,
                                    (i + 1) as nat,
                                    count as nat,
                                );
                            }
                            return Err(ImportError::Number);
                        },
                    }
                },
                Column::Symbol => {
                    if field.len() > 1 {
                        let name = text_of(field);
                        stock_info.add_symbol(StockSymbol::new(name.as_str()));
                        proof {
                            read = PositionRead { symbol: Some(field@), ..read };
                        }
                    } else {
                        stopped = true;
                        proof {
                            read = PositionRead { stopped: true, ..read };
                        }
                    }
                },
                Column::Shares => {
                    match read_amount(field) {
                        Some(shares) => {
                            stock_info.add_shares(shares);
                            proof {
                                read = PositionRead { shares: Some(shares), ..read };
                            }
                        },
                        None => {
                            proof {
                                lemma_position_error_stays(
                                    texts_of(fields@),
                                    columns@,
                                    (i + 1) as nat,
                                    count as nat,
                                );
                            }
                            return Err(ImportError::Amount);
                        },
                    }
                },
                Column::SharePrice => {
                    match read_amount(field) {
                        Some(price) => {
                            stock_info.add_share_price(price);
                            proof {
                                read = PositionRead { share_price: Some(price), ..read };
                            }
                        },
                        None => {
                            proof {
                                lemma_position_error_stays(
                                    texts_of(fields@),
                                    columns@,
                                    (i + 1) as nat,
                                    count as nat,
                                );
                            }
                            return Err(ImportError::Amount);
                        },
                    }
                },
                Column::TotalValue => {
                    match read_amount(field) {
                        Some(value) => {
                            stock_info.add_total_value(value);
                            proof {
                                read = PositionRead { total_value: Some(value), ..read };
                            }
                        },
                        None => {
                            proof {
                                lemma_position_error_stays(
                                    texts_of(fields@),
                                    columns@,
                                    (i + 1) as nat,
                                    count as nat,
                                );
                            }
                            return Err(ImportError::Amount);
                        },
                    }
                },
                _ => {},
            }
        }
        i = i + 1;
    }
    Ok(stock_info)
}

/// A transaction as it is read, field by field.
struct Draft {
    account_number: Option<u32>,
    trade_date: Option<i32>,
    symbol: Option<StockSymbol>,
    shares: Option<i64>,
    net_amount: Option<i64>,
    transaction_type: Option<TransactionType>,
}

impl Draft {
    /// Whether the draft holds what was read.
    closed spec fn is_read(self, read: EntryRead) -> bool {
        &&& self.account_number == read.account_number
        &&& self.trade_date == read.trade_date
        &&& self.symbol is Some == read.symbol is Some
        &&& read.symbol matches Some(name) ==> self.symbol->0.is_named(name)
        &&& self.shares == read.shares
        &&& self.net_amount == read.net_amount
        &&& self.transaction_type is Some == read.transaction_type is Some
        &&& read.transaction_type matches Some(name) ==> self.transaction_type->0.is_named(name)
    }

    /// The transaction, if every field of it has been read.
    fn finish(self, Ghost(read): Ghost<EntryRead>) -> (r: Option<Transaction>)
        requires
            self.is_read(read),
        ensures
            r is Some == read.complete(),
            r matches Some(transaction) ==> is_entry(transaction, read),
    {
        Some(
            Transaction::new(
                self.account_number?,
                self.trade_date?,
                self.symbol?,
                self.shares?,
                self.net_amount?,
                self.transaction_type?,
            ),
        )
    }
}

/// Reads a row of the transactions, each field under its column. Returns the
/// transaction, if every field of one was there.
fn read_entry(fields: &Vec<Vec<char>>, columns: &Vec<Column>) -> (r: Result<
    Option<Transaction>,
    ImportError,
>)
    ensures
        match entry_read(texts_of(fields@), columns@, paired(texts_of(fields@), columns@)) {
            Ok(read) => r matches Ok(found) && found is Some == read.complete() && (
            found matches Some(transaction) ==> is_entry(transaction, read)),
            Err(error) => r matches Err(e) && e == error,
        },
{
    let count: usize = if fields.len() <= columns.len() {
        fields.len()
    } else {
        columns.len()
    };
    let mut draft = Draft {
        account_number: None,
        trade_date: None,
        symbol: None,
        shares: None,
        net_amount: None,
        transaction_type: None,
    };
    let ghost mut read = EntryRead::blank();
    let mut i: usize = 0;
    while i < count
        invariant
            i <= count,
            count == paired(texts_of(fields@), columns@),
            entry_read(texts_of(fields@), columns@, i as nat) == Ok::<EntryRead, ImportError>(
                read,
            ),
            draft.is_read(read),
        decreases count - i,
    {
        let field = &fields[i];
        assert(texts_of(fields@)[i as int] == field@);
        match columns[i] {
            Column::AccountNumber => {
                match read_unsigned(field) {
                    Some(number) => {
                        draft.account_number = Some(number);
                        proof {
                            read = EntryRead { account_number: Some(number), ..read };
                        }
                    },
                    None => {
                        proof {
                            lemma_entry_error_stays(
                                texts_of(fields@),
                                columns@,
                                (i + 1) as nat,
                                count as nat,
                            );
                        }
                        return Err(ImportError::Number);
                    },
                }
            },
            Column::Symbol => {
                let name = text_of(field);
                draft.symbol = Some(StockSymbol::new(name.as_str()));
                proof {
                    read = EntryRead { symbol: Some(field@), ..read };
                }
            },
            Column::Shares => {
                match read_amount(field) {
                    Some(shares) => {
                        draft.shares = Some(shares);
                        proof {
                            read = EntryRead { shares: Some(shares), ..read };
                        }
                    },
                    None => {
                        proof {
                            lemma_entry_error_stays(
                                texts_of(fields@),
                                columns@,
                                (i + 1) as nat,
                                count as nat,
                            );
                        }
                        return Err(ImportError::Amount);
                    },
                }
            },
            Column::TradeDate => {
                let written = text_of(field);
                match read_day(written.as_str()) {
                    Ok(day) => {
                        draft.trade_date = Some(day);
                        proof {
                            read = EntryRead { trade_date: Some(day), ..read };
                        }
                    },
                    Err(_) => {
                        proof {
                            lemma_entry_error_stays(
                                texts_of(fields@),
                                columns@,
                                (i + 1) as nat,
                                count as nat,
                            );
                        }
                        return Err(ImportError::Date);
                    },
                }
            },
            Column::NetAmount => {
                match read_amount(field) {
                    Some(net_amount) => {
                        draft.net_amount = Some(net_amount);
                        proof {
                            read = EntryRead { net_amount: Some(net_amount), ..read };
                        }
                    },
                    None => {
                        proof {
                            lemma_entry_error_stays(
                                texts_of(fields@),
                                columns@,
                                (i + 1) as nat,
                                count as nat,
                            );
                        }
                        return Err(ImportError::Amount);
                    },
                }
            },
            Column::TransactionType => {
                let name = text_of(field);
                draft.transaction_type = Some(TransactionType::new(name.as_str()));
                proof {
                    read = EntryRead { transaction_type: Some(field@), ..read };
                }
            },
            _ => {},
        }
        i = i + 1;
    }
    Ok(draft.finish(Ghost(read)))
}

/// Once a row cannot be read, the export cannot be read.
proof fn lemma_row_error_stays(rows: Seq<Seq<char>>, at: nat, count: nat)
    requires
        at <= count,
        rows_imported(rows, at) is Err,
    ensures
        rows_imported(rows, count) == rows_imported(rows, at),
    decreases count - at,
{
    if at < count {
        lemma_row_error_stays(rows, at, (count - 1) as nat);
    }
}

/// A symbol of more than one character stands for something.
proof fn lemma_long_name_is_not_empty(name: Seq<char>)
    requires
        name.len() > 1,
    ensures
        !(fund_named(name) is Empty),
{
    reveal_strlit("");
    assert(""@.len() == 0);
}

/// A vector with a position put into it, where the result can be stored.
fn place(values: ShareValues, stock_info: &StockInfo, add_type: AddType) -> (r: Option<
    ShareValues,
>)
    requires
        !(stock_info.symbol is Empty),
    ensures
        r is Some <==> with_position(values@, *stock_info, add_type).fits(),
        r matches Some(updated) ==> updated@ == with_position(values@, *stock_info, add_type),
{
    proof {
        values.lemma_view(values);
    }
    let adds_up = match (&stock_info.symbol, add_type) {
        (StockSymbol::Other(_), AddType::HoldingValue) => true,
        _ => false,
    };
    if adds_up {
        checked_sum(values.stock_value(stock_info.symbol.duplicate()), stock_info.total_value)?;
    }
    let mut updated = values;
    updated.add_stockinfo_value(stock_info.duplicate(), add_type);
    Some(updated)
}

/// The vector of an account, or zeros for an account that has none yet.
fn vector_in(accounts: &HashMap<u32, ShareValues>, account_number: u32, Ghost(read): Ghost<
    Map<u32, Values>,
>) -> (r: ShareValues)
    requires
        are_accounts(accounts@, read),
    ensures
        r@ == vector_of(read, account_number),
{
    match accounts.get(&account_number) {
        Some(values) => {
            assert(accounts@.contains_key(account_number));
            assert(read.dom().contains(account_number));
            *values
        },
        None => {
            assert(!read.dom().contains(account_number));
            ShareValues::new()
        },
    }
}

/// What has been read of an export, as it is kept while reading.
struct Reader {
    in_positions: bool,
    position_columns: Option<Vec<Column>>,
    transaction_columns: Option<Vec<Column>>,
    accounts_values: HashMap<u32, ShareValues>,
    accounts_shares: HashMap<u32, ShareValues>,
    quotes: ShareValues,
    transactions: Vec<Transaction>,
}

/// Whether columns are those that were read, if any were.
spec fn are_columns(columns: Option<Vec<Column>>, read: Option<Seq<Column>>) -> bool {
    match read {
        Some(names) => columns matches Some(kept) && kept@ == names,
        None => columns is None,
    }
}

impl Reader {
    /// Whether the reader holds what was read.
    closed spec fn holds(&self, state: Import) -> bool {
        &&& self.in_positions == state.in_positions
        &&& are_columns(self.position_columns, state.position_columns)
        &&& are_columns(self.transaction_columns, state.transaction_columns)
        &&& are_accounts(self.accounts_values@, state.accounts_values)
        &&& are_accounts(self.accounts_shares@, state.accounts_shares)
        &&& self.quotes@ == state.quotes
        &&& are_entries(self.transactions@, state.entries)
    }

    /// The reader before the first row.
    fn new() -> (r: Reader)
        ensures
            r.holds(Import::start()),
    {
        let r = Reader {
            in_positions: true,
            position_columns: None,
            transaction_columns: None,
            accounts_values: HashMap::new(),
            accounts_shares: HashMap::new(),
            quotes: ShareValues::new_quote(),
            transactions: Vec::new(),
        };
        assert(r.accounts_values@.dom() =~= Map::<u32, Values>::empty().dom());
        assert(r.accounts_shares@.dom() =~= Map::<u32, Values>::empty().dom());
        r
    }

    /// The store that holds what was read.
    fn finish(self, Ghost(state): Ghost<Import>) -> (r: VanguardHoldings)
        requires
            self.holds(state),
        ensures
            is_import(r, state),
    {
        VanguardHoldings {
            accounts_values: self.accounts_values,
            accounts_shares: self.accounts_shares,
            quotes: self.quotes,
            transactions: self.transactions,
            distributions: HashMap::new(),
        }
    }

    /// Puts a position into what has been read, if every field of it has been
    /// read.
    fn put(&mut self, stock_info: StockInfo, Ghost(state): Ghost<Import>, Ghost(read): Ghost<
        PositionRead,
    >) -> (r: Result<(), ImportError>)
        requires
            old(self).holds(state),
            is_position(stock_info, read),
        ensures
            match position_placed(state, read) {
                Ok(next) => r is Ok && final(self).holds(next),
                Err(error) => r matches Err(e) && e == error,
            },
    {
        if !stock_info.finished() {
            return Ok(());
        }
        proof {
            lemma_long_name_is_not_empty(read.symbol->0);
        }
        let account: u32 = stock_info.account_number;
        let held = vector_in(&self.accounts_values, account, Ghost(state.accounts_values));
        let values = match place(held, &stock_info, AddType::HoldingValue) {
            Some(values) => values,
            None => {
                return Err(ImportError::OutOfRange);
            },
        };
        let held_shares = vector_in(&self.accounts_shares, account, Ghost(state.accounts_shares));
        proof {
            held_shares.lemma_view(held_shares);
            self.quotes.lemma_view(self.quotes);
        }
        let shares = match place(held_shares, &stock_info, AddType::HoldingShares) {
            Some(shares) => shares,
            None => {
                return Err(ImportError::OutOfRange);
            },
        };
        let quotes = match place(self.quotes, &stock_info, AddType::StockPrice) {
            Some(quotes) => quotes,
            None => {
                return Err(ImportError::OutOfRange);
            },
        };
        self.accounts_values.insert(account, values);
        self.accounts_shares.insert(account, shares);
        self.quotes = quotes;
        proof {
            let next = position_placed(state, read)->Ok_0;
            assert(self.accounts_values@.dom() =~= next.accounts_values.dom());
            assert(self.accounts_shares@.dom() =~= next.accounts_shares.dom());
        }
        Ok(())
    }

    /// Reads one row of an export.
    fn take_row(&mut self, row: &Vec<char>, trade_date: &Vec<char>, Ghost(state): Ghost<Import>) -> (r:
        Result<(), ImportError>)
        requires
            old(self).holds(state),
            trade_date@ == "Trade Date"@,
        ensures
            match row_imported(state, row@) {
                Ok(next) => r is Ok && final(self).holds(next),
                Err(error) => r matches Err(e) && e == error,
            },
    {
        if !contains(row, ',') {
            return Ok(());
        }
        if search(row, trade_date) {
            self.in_positions = false;
        }
        let ghost turned = Import {
            in_positions: state.in_positions && !holds(row@, "Trade Date"@),
            ..state
        };
        let fields = split(row, ',');
        if fields.len() <= 4 {
            return Ok(());
        }
        if self.in_positions {
            if self.position_columns.is_none() {
                self.position_columns = Some(columns_of(&fields));
                Ok(())
            } else {
                let stock_info = match &self.position_columns {
                    Some(columns) => read_position(&fields, columns)?,
                    None => StockInfo::new(),
                };
                let ghost columns = state.position_columns->0;
                let ghost read = position_read(
                    texts_of(fields@),
                    columns,
                    paired(texts_of(fields@), columns),
                )->Ok_0;
                self.put(stock_info, Ghost(turned), Ghost(read))
            }
        } else {
            if self.transaction_columns.is_none() {
                self.transaction_columns = Some(columns_of(&fields));
                Ok(())
            } else {
                let found = match &self.transaction_columns {
                    Some(columns) => read_entry(&fields, columns)?,
                    None => None,
                };
                if let Some(transaction) = found {
                    self.transactions.push(transaction);
                }
                Ok(())
            }
        }
    }
}

/// Reads the export of the accounts: what each account holds of each fund, in
/// value and in shares, the price of each fund, and the transactions. Prices
/// that the export does not give stay at one dollar, and no distribution is
/// recorded.
pub fn parse_csv_download(csv_string: String) -> (r: Result<VanguardHoldings, ImportError>)
    ensures
        match imported(csv_string@) {
            Ok(read) => r matches Ok(store) && is_import(store, read),
            Err(error) => r matches Err(e) && e == error,
        },
{
    let text = chars_of(csv_string.as_str());
    let rows = split(&text, '\n');
    let trade_date = chars_of("Trade Date");
    let mut reader = Reader::new();
    let ghost mut state = Import::start();
    let mut i: usize = 0;
    while i < rows.len()
        invariant
            i <= rows@.len(),
            texts_of(rows@) == pieces(csv_string@, '\n'),
            trade_date@ == "Trade Date"@,
            rows_imported(texts_of(rows@), i as nat) == Ok::<Import, ImportError>(state),
            reader.holds(state),
        decreases rows@.len() - i,
    {
        assert(texts_of(rows@)[i as int] == rows@[i as int]@);
        match reader.take_row(&rows[i], &trade_date, Ghost(state)) {
            Ok(()) => {
                proof {
                    state = row_imported(state, rows@[i as int]@)->Ok_0;
                }
            },
            Err(error) => {
                proof {
                    lemma_row_error_stays(texts_of(rows@), (i + 1) as nat, rows@.len());
                }
                return Err(error);
            },
        }
        i = i + 1;
    }
    assert(texts_of(rows@).len() == rows@.len());
    Ok(reader.finish(Ghost(state)))
}

} // verus!
