//! The rebalance: what each account should hold of each fund, and what to buy
//! and sell to get there.
//!
//! A brokerage account on its own is rebalanced toward a fixed split between
//! stocks and bonds. The retirement accounts, and the brokerage account where it
//! is managed with them, are rebalanced together toward the allocation on the
//! glide path of the retirement year. Their common target is then divided among
//! them by risk: the Roth IRA, which grows free of tax, is filled with the
//! riskiest funds first, the brokerage account with the safest funds first, and
//! the traditional IRA takes what remains.
pub mod distribution;
pub mod laws;
pub mod plan;
pub mod rebalance;
pub mod table;

pub use distribution::{
    calculate_minimum_distribution, distribution_for, required_distribution, Distribution,
};
pub use rebalance::{
    brokerage_calc, fill_account, high_to_low_risk, low_to_high_risk, retirement_calc, settle,
    to_buy, to_buy_in,
};
pub use table::{distribution_table, TableError};
