use chrono::Datelike;
use vapore::calc::{distribution_table, TableError};
use vapore::holdings::{
    parse_csv_download, ImportError, ShareValues, StockSymbol, TransactionType,
};

const USD: i64 = 1_000_000;

const POSITIONS: &str = "Account Number,Investment Name,Symbol,Shares,Share Price,Total Value,
11111111,VANGUARD TOTAL BOND MARKET ETF,BND,10.5,72.50,761.25,
11111111,VANGUARD LARGE-CAP ETF,VV,20,200.00,4000.00,
11111111,APPLE INC,AAPL,1,150,150,
11111111,MICROSOFT CORP,MSFT,2,300.125,600.25,
22222222,VANGUARD FEDERAL MONEY MARKET FUND,VMFXX,500,1,500,
22222222,CASH,,0,0,0,
22222222,VANGUARD SMALL-CAP ETF,VB,3.1234,190.01,593.477234,
";

const TRANSACTIONS: &str = "
Account Number,Trade Date,Settlement Date,Transaction Type,Transaction Description,Investment Name,Symbol,Shares,Share Price,Principal Amount,Commissions and Fees,Net Amount,Accrued Interest,Account Type,
11111111,2024-02-01,2024-02-03,Buy,Buy,VANGUARD LARGE-CAP ETF,VV,5,200.0,-1000.0,0.0,-1000.0,0.0,CASH,
11111111,2023-06-01,2023-06-01,Dividend,Dividend,VANGUARD TOTAL BOND MARKET ETF,BND,0,0,12.5,0,12.5,0,CASH,
22222222,2024-03-15,2024-03-15,Distribution,Distribution,,,0,0,-2000,0,-2000,0,CASH,
22222222,2024-03-16,2024-03-16,Stock split,Split,TESLA,TSLA,-1.5,0,0,0,0,0,CASH,
";

fn export() -> String {
    let mut text = String::new();
    text.push_str(POSITIONS);
    text.push_str(TRANSACTIONS);
    text
}

#[test]
fn positions_are_read() {
    let holdings = parse_csv_download(export()).unwrap();
    assert_eq!(holdings.accounts_values.len(), 2);
    assert_eq!(holdings.accounts_shares.len(), 2);
    let values = holdings.accounts_values[&11_111_111];
    assert_eq!(values.stock_value(StockSymbol::BND), 761_250_000);
    assert_eq!(values.stock_value(StockSymbol::VV), 4_000 * USD);
    // the unsupported funds are added up
    assert_eq!(values.stock_value(StockSymbol::Other(String::new())), 750_250_000);
    assert_eq!(values.stock_value(StockSymbol::VB), 0);
    assert_eq!(values.total_value(), 5_511_500_000);
    let shares = holdings.accounts_shares[&11_111_111];
    assert_eq!(shares.stock_value(StockSymbol::BND), 10_500_000);
    assert_eq!(shares.stock_value(StockSymbol::VV), 20 * USD);
    assert_eq!(shares.stock_value(StockSymbol::Other(String::new())), USD);
    let values = holdings.accounts_values[&22_222_222];
    assert_eq!(values.stock_value(StockSymbol::VMFXX), 500 * USD);
    assert_eq!(values.stock_value(StockSymbol::VB), 593_477_234);
    let shares = holdings.accounts_shares[&22_222_222];
    assert_eq!(shares.stock_value(StockSymbol::VB), 3_123_400);
}

#[test]
fn quotes_are_read() {
    let holdings = parse_csv_download(export()).unwrap();
    let quotes = holdings.stock_quotes();
    assert_eq!(quotes.stock_value(StockSymbol::BND), 72_500_000);
    assert_eq!(quotes.stock_value(StockSymbol::VV), 200 * USD);
    assert_eq!(quotes.stock_value(StockSymbol::VB), 190_010_000);
    assert_eq!(quotes.stock_value(StockSymbol::VMFXX), USD);
    assert_eq!(quotes.stock_value(StockSymbol::Other(String::new())), USD);
    // a fund that no account holds keeps the price of one dollar
    assert_eq!(quotes.stock_value(StockSymbol::VWO), USD);
    assert_eq!(quotes.outside_bond_value(), USD);
    assert!(quotes.no_zero());
    assert_eq!(
        quotes.missing_quotes(),
        vec![
            StockSymbol::VO,
            StockSymbol::VTC,
            StockSymbol::VXUS,
            StockSymbol::VWO,
            StockSymbol::BNDX,
            StockSymbol::VTIP,
        ]
    );
}

#[test]
fn transactions_are_read() {
    let holdings = parse_csv_download(export()).unwrap();
    let transactions = holdings.transactions();
    assert_eq!(transactions.len(), 4);
    let first = &transactions[0];
    assert_eq!(first.account_number, 11_111_111);
    assert_eq!(
        first.trade_date,
        chrono::NaiveDate::from_ymd_opt(2024, 2, 1).unwrap().num_days_from_ce()
    );
    assert_eq!(first.symbol, StockSymbol::VV);
    assert_eq!(first.shares, 5 * USD);
    assert_eq!(first.net_amount, -1_000 * USD);
    assert_eq!(first.transaction_type, TransactionType::BUY);
    let second = &transactions[1];
    assert_eq!(
        second.trade_date,
        chrono::NaiveDate::from_ymd_opt(2023, 6, 1).unwrap().num_days_from_ce()
    );
    assert_eq!(first.trade_date - second.trade_date, 245);
    assert_eq!(second.symbol, StockSymbol::BND);
    assert_eq!(second.net_amount, 12_500_000);
    assert_eq!(second.transaction_type, TransactionType::DIVIDEND);
    let third = &transactions[2];
    assert_eq!(third.account_number, 22_222_222);
    assert_eq!(third.symbol, StockSymbol::Empty);
    assert_eq!(third.net_amount, -2_000 * USD);
    assert_eq!(third.transaction_type, TransactionType::DISTRIBUTION);
    let fourth = &transactions[3];
    assert_eq!(fourth.symbol, StockSymbol::Other("TSLA".to_string()));
    assert_eq!(fourth.shares, -1_500_000);
    assert_eq!(fourth.transaction_type, TransactionType::Other("Stock split".to_string()));
    assert!(holdings.distributions.is_empty());
}

#[test]
fn year_end_is_computed_from_an_export() {
    let mut holdings = parse_csv_download(export()).unwrap();
    let mut current = ShareValues::new();
    current.add_stock_value(StockSymbol::VV, 100 * USD);
    let mut expected = ShareValues::new();
    expected.add_stock_value(StockSymbol::VV, 95 * USD);
    assert_eq!(holdings.eoy_traditional_holdings(2024, 11_111_111, current), Ok(Some(expected)));
    // the other account has distributed 2000 dollars in the year
    assert_eq!(holdings.eoy_traditional_holdings(2024, 22_222_222, current).unwrap().unwrap(), {
        let mut with_split = current;
        with_split.add_stock_value(StockSymbol::Other(String::new()), 1_500_000);
        with_split
    });
    assert_eq!(holdings.distributions(&22_222_222), 2_000 * USD);
}

#[test]
fn empty_export_is_an_empty_store() {
    for text in ["", "\n\n", "no commas here\nnor here", "a,b,c,d\n1,2,3,4\n"] {
        let holdings = parse_csv_download(text.to_string()).unwrap();
        assert!(holdings.accounts_values.is_empty());
        assert!(holdings.accounts_shares.is_empty());
        assert!(holdings.transactions().is_empty());
        assert_eq!(holdings.stock_quotes(), ShareValues::new_quote());
    }
}

#[test]
fn rows_that_lack_a_field_hold_no_position() {
    let text = "Account Number,Investment Name,Symbol,Shares,Share Price,Total Value
11111111,NAME,BND,10.5,72.50
11111111,NAME,V,10.5,72.50,761.25
33333333,NAME,VO,1,2,3";
    let holdings = parse_csv_download(text.to_string()).unwrap();
    assert_eq!(holdings.accounts_values.len(), 1);
    assert_eq!(holdings.accounts_values[&33_333_333].stock_value(StockSymbol::VO), 3 * USD);
    assert_eq!(holdings.stock_quotes().stock_value(StockSymbol::BND), USD);
}

#[test]
fn second_row_of_names_is_read_as_a_position() {
    let text = "Account Number,Investment Name,Symbol,Shares,Share Price,Total Value
Account Number,Investment Name,Symbol,Shares,Share Price,Total Value";
    assert_eq!(parse_csv_download(text.to_string()).err(), Some(ImportError::Number));
}

#[test]
fn later_position_replaces_an_earlier_one() {
    let text = "Account Number,Symbol,Shares,Share Price,Total Value
1,VO,1,2,3
1,VO,4,5,6
2,VO,7,8,9";
    let holdings = parse_csv_download(text.to_string()).unwrap();
    assert_eq!(holdings.accounts_values[&1].stock_value(StockSymbol::VO), 6 * USD);
    assert_eq!(holdings.accounts_shares[&1].stock_value(StockSymbol::VO), 4 * USD);
    assert_eq!(holdings.accounts_values[&2].stock_value(StockSymbol::VO), 9 * USD);
    assert_eq!(holdings.stock_quotes().stock_value(StockSymbol::VO), 8 * USD);
}

#[test]
fn transactions_that_lack_a_field_are_passed_over() {
    let text = "Account Number,Trade Date,Transaction Type,Symbol,Shares,Net Amount
1,2024-01-02,Buy,VO,1,-2
1,2024-01-03,Buy,VO,1
1,2024-01-04,Sell,VO,-1,2,and,more";
    let holdings = parse_csv_download(text.to_string()).unwrap();
    let transactions = holdings.transactions();
    assert_eq!(transactions.len(), 2);
    assert_eq!(transactions[0].transaction_type, TransactionType::BUY);
    assert_eq!(transactions[1].transaction_type, TransactionType::SELL);
    assert!(holdings.accounts_values.is_empty());
}

#[test]
fn what_cannot_be_read_is_an_error() {
    let positions = "Account Number,Symbol,Shares,Share Price,Total Value\n";
    let transactions = "Account Number,Trade Date,Transaction Type,Symbol,Shares,Net Amount\n";
    let read = |header: &str, row: &str| {
        let mut text = header.to_string();
        text.push_str(row);
        parse_csv_download(text).err()
    };
    assert_eq!(read(positions, "x,VO,1,2,3"), Some(ImportError::Number));
    assert_eq!(read(positions, "-1,VO,1,2,3"), Some(ImportError::Number));
    assert_eq!(read(positions, "4294967296,VO,1,2,3"), Some(ImportError::Number));
    assert_eq!(read(positions, "1,VO,one,2,3"), Some(ImportError::Amount));
    assert_eq!(read(positions, "1,VO,1,$2,3"), Some(ImportError::Amount));
    assert_eq!(read(positions, "1,VO,1,2,"), Some(ImportError::Amount));
    assert_eq!(read(positions, "1,VO,1,2,3\r"), Some(ImportError::Amount));
    assert_eq!(read(positions, "1,VO,1,2,3"), None);
    // a row that ends at a short symbol is not read further
    assert_eq!(read(positions, "1,V,one,two,three"), None);
    assert_eq!(read(transactions, "1,2024-01-02,Buy,VO,1,-2"), None);
    assert_eq!(read(transactions, "1,2024-13-02,Buy,VO,1,-2"), Some(ImportError::Date));
    assert_eq!(read(transactions, "1,2023-02-29,Buy,VO,1,-2"), Some(ImportError::Date));
    assert_eq!(read(transactions, "1,01/02/2024,Buy,VO,1,-2"), Some(ImportError::Date));
    assert_eq!(read(transactions, "1,2024-01-02,Buy,VO,1,"), Some(ImportError::Amount));
    assert_eq!(read(transactions, "one,2024-01-02,Buy,VO,1,2"), Some(ImportError::Number));
}

#[test]
fn unsupported_values_that_cannot_be_stored_are_an_error() {
    let text = "Account Number,Symbol,Shares,Share Price,Total Value
1,AAPL,1,1,9000000000000
1,MSFT,1,1,9000000000000";
    assert_eq!(parse_csv_download(text.to_string()).err(), Some(ImportError::OutOfRange));
}

#[test]
fn distribution_table_is_read() {
    let text = "Age,Distribution Period\n72,27.4\n73,26.5\n74,25.5\n";
    let table = distribution_table(text).unwrap();
    assert_eq!(table.len(), 3);
    assert_eq!(table[&72], 27_400_000);
    assert_eq!(table[&73], 26_500_000);
    assert_eq!(table[&74], 25_500_000);
}

#[test]
fn distribution_table_with_carriage_returns() {
    let text = "Age,Distribution Period\r\n72,27.4\r\n\r\nnote without a comma\r\n73,26.5";
    let table = distribution_table(text).unwrap();
    assert_eq!(table.len(), 2);
    assert_eq!(table[&72], 27_400_000);
    assert_eq!(table[&73], 26_500_000);
    // a carriage return that no line feed follows is part of the line
    assert_eq!(distribution_table("Age,Distribution Period\n72,27.4\r"), Err(TableError::Period));
}

#[test]
fn distribution_table_keeps_the_last_period_of_an_age() {
    let table = distribution_table("Age,Distribution Period,Note\n72,27.4,a\n72,27.5,b").unwrap();
    assert_eq!(table.len(), 1);
    assert_eq!(table[&72], 27_500_000);
    assert!(distribution_table("").unwrap().is_empty());
    assert!(distribution_table("Anything,Else").unwrap().is_empty());
}

#[test]
fn distribution_table_that_cannot_be_read_is_an_error() {
    assert_eq!(distribution_table("Years,Distribution Period\n72,27.4"), Err(TableError::Header));
    assert_eq!(distribution_table("Age,Period\n72,27.4"), Err(TableError::Header));
    assert_eq!(distribution_table("Age,Distribution Period\nx,27.4"), Err(TableError::Age));
    assert_eq!(distribution_table("Age,Distribution Period\n72,x"), Err(TableError::Period));
    assert_eq!(distribution_table("Age,Distribution Period\n72,"), Err(TableError::Period));
    assert_eq!(distribution_table("Age,Distribution Period\n,27.4"), Err(TableError::Age));
}
