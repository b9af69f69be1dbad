//! Holdings of the supported funds: symbols, value vectors, accounts and the
//! transaction ledger.
pub mod account;
pub mod export;
pub mod import;
pub mod ledger;
pub mod share_values;
pub mod stock_info;
pub mod store;
pub mod symbol;
pub mod transaction;
pub mod values;

pub use account::{AccountHoldings, AccountPlan, HoldingType, RebalancePlan, VanguardRebalance};
pub use export::ImportError;
pub use import::parse_csv_download;
pub use share_values::ShareValues;
pub use stock_info::{AddType, StockInfo};
pub use store::VanguardHoldings;
pub use symbol::{all_stock_descriptions, StockSymbol};
pub use transaction::{Transaction, TransactionType};
pub use values::Values;
