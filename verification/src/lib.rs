//! Rebalancing of a brokerage, a traditional IRA and a Roth IRA account toward a
//! target allocation, and the minimum distribution required from the traditional
//! IRA.
//!
//! Every quantity is an exact integer. Dollars, share counts and prices are
//! counted in millionths (see [`fixed`]); percentages are counted in basis
//! points (see [`asset`]).
pub mod asset;
pub mod calc;
pub mod calendar;
pub mod decimal;
pub mod error;
pub mod fixed;
pub mod holdings;
pub mod text;
